//! The command keywords and the autocompletion hints built from them.

use vstd::prelude::*;

verus! {

/// The top-level commands, in the order the command selector lists them.
pub open spec fn command_words() -> Seq<Seq<char>> {
    seq!["loginwm"@, "loginshell"@, "showinfo"@, "help"@, "exit"@, "clear"@]
}

/// The words the hint table completes, in the order it is searched.
pub open spec fn hint_words() -> Seq<Seq<char>> {
    seq!["help"@, "loginwm"@, "loginshell"@, "showinfo"@, "clear"@, "exit"@, "s"@]
}

/// `p` is a prefix of `s`.
pub open spec fn is_prefix(p: Seq<char>, s: Seq<char>) -> bool {
    p.len() <= s.len() && s.take(p.len() as int) == p
}

/// The command selector's list of commands.
pub fn commands() -> (r: Vec<String>)
    ensures
        r@.map_values(|w: String| w@) == command_words(),
{
    let r = vec![
        "loginwm".to_owned(),
        "loginshell".to_owned(),
        "showinfo".to_owned(),
        "help".to_owned(),
        "exit".to_owned(),
        "clear".to_owned(),
    ];
    assert(r@.map_values(|w: String| w@) =~= command_words());
    r
}

/// A hint: the text shown after the cursor, of which the first
/// `complete_up_to` characters are inserted on completion.
#[derive(Clone, Debug)]
pub struct CommandHint {
    pub display: String,
    pub complete_up_to: usize,
}

impl CommandHint {
    pub open spec fn view(&self) -> (Seq<char>, nat) {
        (self.display@, self.complete_up_to as nat)
    }

    /// A hint that shows `text` and completes its first `complete_up_to@.len()` characters.
    pub fn new(text: &str, complete_up_to: &str) -> (r: CommandHint)
        requires
            complete_up_to@.len() <= text@.len(),
        ensures
            r.display@ == text@,
            r.complete_up_to == complete_up_to@.len(),
    {
        CommandHint { display: text.to_owned(), complete_up_to: complete_up_to.unicode_len() }
    }

    /// The hint left once the first `strip` characters have been typed.
    pub fn suffix(&self, strip: usize) -> (r: CommandHint)
        requires
            strip <= self.display@.len(),
        ensures
            r.display@ == self.display@.skip(strip as int),
            r.complete_up_to == if self.complete_up_to >= strip {
                self.complete_up_to - strip
            } else {
                0
            },
    {
        let n = self.display.as_str().unicode_len();
        CommandHint {
            display: self.display.as_str().substring_char(strip, n).to_owned(),
            complete_up_to: if self.complete_up_to >= strip {
                self.complete_up_to - strip
            } else {
                0
            },
        }
    }

    /// The text inserted on completion, if any.
    pub fn completion(&self) -> (r: Option<String>)
        requires
            self.complete_up_to <= self.display@.len(),
        ensures
            self.complete_up_to == 0 ==> r is None,
            self.complete_up_to > 0 ==> r is Some && r->0@ == self.display@.take(
                self.complete_up_to as int,
            ),
    {
        if self.complete_up_to > 0 {
            Some(self.display.as_str().substring_char(0, self.complete_up_to).to_owned())
        } else {
            None
        }
    }
}

/// A hint is well formed when it completes no more than it shows.
pub open spec fn hints_wf(hs: Seq<CommandHint>) -> bool {
    forall|i: int| 0 <= i < hs.len() ==> #[trigger] hs[i].complete_up_to <= hs[i].display@.len()
}

/// The hint table: each keyword completes to itself.
pub fn diy_hints() -> (r: Vec<CommandHint>)
    ensures
        r@.len() == hint_words().len(),
        forall|i: int|
            0 <= i < r@.len() ==> #[trigger] r@[i].display@ == hint_words()[i]
                && r@[i].complete_up_to == hint_words()[i].len(),
        hints_wf(r@),
{
    let r = vec![
        CommandHint::new("help", "help"),
        CommandHint::new("loginwm", "loginwm"),
        CommandHint::new("loginshell", "loginshell"),
        CommandHint::new("showinfo", "showinfo"),
        CommandHint::new("clear", "clear"),
        CommandHint::new("exit", "exit"),
        CommandHint::new("s", "s"),
    ];
    r
}

/// Index of the first hint whose text begins with `line`, searching from `from`.
pub open spec fn first_match(hs: Seq<CommandHint>, line: Seq<char>, from: int) -> Option<int>
    decreases hs.len() - from,
{
    if from < 0 || from >= hs.len() {
        None
    } else if is_prefix(line, hs[from].display@) {
        Some(from)
    } else {
        first_match(hs, line, from + 1)
    }
}

/// The hint for `line` with the cursor at its end: the rest of the first
/// hint that `line` begins; none for an empty line or when nothing matches.
pub fn hint_for(hints: &Vec<CommandHint>, line: &str) -> (r: Option<CommandHint>)
    requires
        hints_wf(hints@),
    ensures
        line@.len() == 0 ==> r is None,
        line@.len() > 0 ==> match first_match(hints@, line@, 0) {
            None => r is None,
            Some(i) => r is Some && r->0.display@ == hints@[i].display@.skip(line@.len() as int)
                && r->0.complete_up_to == if hints@[i].complete_up_to >= line@.len() {
                hints@[i].complete_up_to - line@.len()
            } else {
                0
            },
        },
{
    let m = line.unicode_len();
    if m == 0 {
        return None;
    }
    let mut i: usize = 0;
    while i < hints.len()
        invariant
            m == line@.len(),
            m > 0,
            i <= hints@.len(),
            first_match(hints@, line@, 0) == first_match(hints@, line@, i as int),
        decreases hints@.len() - i,
    {
        if has_prefix(hints[i].display.as_str(), line) {
            return Some(hints[i].suffix(m));
        }
        i = i + 1;
    }
    None
}

/// Whether `s` begins with `p`, exactly.
fn has_prefix(s: &str, p: &str) -> (r: bool)
    ensures
        r == is_prefix(p@, s@),
{
    let n = s.unicode_len();
    let m = p.unicode_len();
    if m > n {
        return false;
    }
    let mut i: usize = 0;
    while i < m
        invariant
            n == s@.len(),
            m == p@.len(),
            m <= n,
            i <= m,
            forall|k: int| 0 <= k < i ==> s@[k] == p@[k],
        decreases m - i,
    {
        if s.get_char(i) != p.get_char(i) {
            assert(s@.take(m as int)[i as int] != p@[i as int]);
            return false;
        }
        i = i + 1;
    }
    assert(s@.take(m as int) =~= p@);
    true
}

} // verus!
