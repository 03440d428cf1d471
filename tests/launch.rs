use marine_cli::launch::launch_line_for;

#[test]
fn gnome_classic_is_wrapped() {
    assert_eq!(
        launch_line_for("GNOME Classic", "gnome-session --session=gnome-classic"),
        "env XDG_SESSION_TYPE=wayland dbus-run-session gnome-session --session=gnome-classic"
    );
}

#[test]
fn lowercase_gnome_is_wrapped() {
    assert_eq!(
        launch_line_for("gnome", "gnome-session"),
        "env XDG_SESSION_TYPE=wayland dbus-run-session gnome-session"
    );
}

#[test]
fn kde_plasma_is_unchanged() {
    assert_eq!(launch_line_for("KDE Plasma", "startplasma-wayland"), "startplasma-wayland");
}

#[test]
fn gnome_elsewhere_in_name_is_unchanged() {
    assert_eq!(launch_line_for("My GNOME", "gnome-session"), "gnome-session");
    assert_eq!(launch_line_for("Gnom", "x"), "x");
}
