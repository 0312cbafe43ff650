use vstd::prelude::*;

verus! {

/// The text of each owned string.
pub open spec fn strs(v: Seq<String>) -> Seq<Seq<char>> {
    v.map_values(|s: String| s@)
}

/// The text of each fixed word.
pub open spec fn words(v: Seq<&str>) -> Seq<Seq<char>> {
    v.map_values(|s: &str| s@)
}

/// The privilege-elevation program put in front of commands that need it.
pub open spec fn sudo_word() -> Seq<char> {
    seq!['s', 'u', 'd', 'o']
}

/// One external command: the program and its base arguments, the user's
/// keywords, and flags passed through unchanged. The arguments stay a list
/// from end to end; nothing is ever joined into a shell string.
#[derive(Debug)]
pub struct Cmd {
    /// Whether the command runs under the privilege-elevation program.
    pub sudo: bool,
    /// The program followed by its fixed base arguments.
    pub cmd: Vec<&'static str>,
    /// Search or package terms, in the order given.
    pub kws: Vec<String>,
    /// Extra flags, in the order given.
    pub flags: Vec<String>,
}

/// The argument list `[sudo?] program base-args... keywords... flags...`.
pub open spec fn argv_of(sudo: bool, cmd: Seq<&str>, kws: Seq<String>, flags: Seq<String>) -> Seq<
    Seq<char>,
> {
    (if sudo {
        seq![sudo_word()]
    } else {
        Seq::empty()
    }) + words(cmd) + strs(kws) + strs(flags)
}

/// Copies a list of strings.
pub fn copy_strings(v: &Vec<String>) -> (r: Vec<String>)
    ensures
        r@ == v@,
{
    let mut r: Vec<String> = Vec::new();
    let mut i: usize = 0;
    while i < v.len()
        invariant
            0 <= i <= v.len(),
            r@ == v@.subrange(0, i as int),
        decreases v.len() - i,
    {
        r.push(v[i].clone());
        proof {
            assert(v@.subrange(0, i + 1) =~= v@.subrange(0, i as int).push(v@[i as int]));
        }
        i = i + 1;
    }
    assert(v@.subrange(0, v@.len() as int) =~= v@);
    r
}

/// Appends owned copies of fixed words to a list of strings.
pub fn push_words(out: &mut Vec<String>, w: &Vec<&'static str>)
    ensures
        strs(final(out)@) == strs(old(out)@) + words(w@),
{
    let ghost start = out@;
    let mut i: usize = 0;
    while i < w.len()
        invariant
            0 <= i <= w.len(),
            strs(out@) == strs(start) + words(w@.subrange(0, i as int)),
        decreases w.len() - i,
    {
        let ghost before = out@;
        let s: String = w[i].to_owned();
        out.push(s);
        proof {
            assert(w@.subrange(0, i + 1) =~= w@.subrange(0, i as int).push(w@[i as int]));
            assert(strs(out@) =~= strs(before).push(w@[i as int]@));
            assert(words(w@.subrange(0, i + 1)) =~= words(w@.subrange(0, i as int)).push(
                w@[i as int]@,
            ));
            assert(strs(out@) =~= strs(start) + words(w@.subrange(0, i + 1)));
        }
        i = i + 1;
    }
    assert(w@.subrange(0, w@.len() as int) =~= w@);
}

/// Appends copies of strings to a list of strings.
pub fn push_strings(out: &mut Vec<String>, v: &Vec<String>)
    ensures
        final(out)@ == old(out)@ + v@,
{
    let ghost start = out@;
    let mut i: usize = 0;
    while i < v.len()
        invariant
            0 <= i <= v.len(),
            out@ == start + v@.subrange(0, i as int),
        decreases v.len() - i,
    {
        out.push(v[i].clone());
        proof {
            assert(start + v@.subrange(0, i + 1) =~= (start + v@.subrange(0, i as int)).push(
                v@[i as int],
            ));
        }
        i = i + 1;
    }
    assert(v@.subrange(0, v@.len() as int) =~= v@);
}

impl Cmd {
    /// The argument list that the command renders to.
    pub open spec fn argv(self) -> Seq<Seq<char>> {
        argv_of(self.sudo, self.cmd@, self.kws@, self.flags@)
    }

    /// A command run as the current user, with no keywords or flags yet.
    pub fn new(cmd: Vec<&'static str>) -> (r: Cmd)
        ensures
            !r.sudo,
            r.cmd@ == cmd@,
            r.kws@.len() == 0,
            r.flags@.len() == 0,
    {
        Cmd { sudo: false, cmd, kws: Vec::new(), flags: Vec::new() }
    }

    /// A command run under the privilege-elevation program, with no keywords
    /// or flags yet.
    pub fn with_sudo(cmd: Vec<&'static str>) -> (r: Cmd)
        ensures
            r.sudo,
            r.cmd@ == cmd@,
            r.kws@.len() == 0,
            r.flags@.len() == 0,
    {
        Cmd { sudo: true, cmd, kws: Vec::new(), flags: Vec::new() }
    }

    /// Sets the keywords.
    pub fn kws(self, kws: &Vec<String>) -> (r: Cmd)
        ensures
            r.sudo == self.sudo,
            r.cmd@ == self.cmd@,
            r.kws@ == kws@,
            r.flags@ == self.flags@,
    {
        Cmd { kws: copy_strings(kws), ..self }
    }

    /// Sets the extra flags.
    pub fn flags(self, flags: &Vec<String>) -> (r: Cmd)
        ensures
            r.sudo == self.sudo,
            r.cmd@ == self.cmd@,
            r.kws@ == self.kws@,
            r.flags@ == flags@,
    {
        Cmd { flags: copy_strings(flags), ..self }
    }

    /// Renders the command as its argument list.
    pub fn render(&self) -> (r: Vec<String>)
        ensures
            strs(r@) == self.argv(),
    {
        let mut out: Vec<String> = Vec::new();
        if self.sudo {
            proof {
                reveal_strlit("sudo");
            }
            let s: String = "sudo".to_owned();
            assert(s@ =~= sudo_word());
            out.push(s);
            assert(strs(out@) =~= seq![sudo_word()]);
        }
        push_words(&mut out, &self.cmd);
        let ghost mid = out@;
        push_strings(&mut out, &self.kws);
        push_strings(&mut out, &self.flags);
        proof {
            assert(strs(out@) =~= strs(mid) + strs(self.kws@) + strs(self.flags@));
        }
        out
    }
}

} // verus!
