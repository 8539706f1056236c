use vstd::prelude::*;
use crate::path::{abs_text, rel_text, relativize, relativize_path, segs_view, AbsPath};

verus! {

/// An external program to run, named by `program`, with its arguments.
#[derive(Debug)]
pub struct Invocation {
    pub program: String,
    pub args: Vec<String>,
}

impl View for Invocation {
    type V = (Seq<char>, Seq<Seq<char>>);

    open spec fn view(&self) -> (Seq<char>, Seq<Seq<char>>) {
        (self.program@, segs_view(self.args@))
    }
}

pub open spec fn ln_program() -> Seq<char> {
    seq!['l', 'n']
}

/// `-sf`: make a symbolic link, replacing whatever is at the destination.
pub open spec fn force_flag() -> Seq<char> {
    seq!['-', 's', 'f']
}

pub open spec fn git_program() -> Seq<char> {
    seq!['g', 'i', 't']
}

pub open spec fn rustup_program() -> Seq<char> {
    seq!['r', 'u', 's', 't', 'u', 'p']
}

/// The invocation that makes `dest` a symbolic link to `src`, replacing any
/// link already there.
pub open spec fn force_symlink_view(src: Seq<char>, dest: Seq<char>) -> (Seq<char>, Seq<Seq<char>>) {
    (ln_program(), seq![force_flag(), src, dest])
}

fn string_of(s: &str) -> (r: String)
    ensures
        r@ == s@,
{
    String::from_str(s)
}

/// The invocation `ln -sf src dest`, which makes `dest` a symbolic link to
/// `src`, also where a link to something else is already there.
pub fn force_symlink(src: &str, dest: &str) -> (r: Invocation)
    ensures
        r@ == force_symlink_view(src@, dest@),
{
    proof {
        reveal_strlit("ln");
        reveal_strlit("-sf");
    }
    let flag = string_of("-sf");
    assert(flag@ =~= force_flag());
    let mut args: Vec<String> = Vec::new();
    args.push(flag);
    args.push(string_of(src));
    args.push(string_of(dest));
    let program = string_of("ln");
    assert(program@ =~= ln_program());
    assert(segs_view(args@) =~= seq![force_flag(), src@, dest@]);
    Invocation { program, args }
}

/// The invocation that makes `abs_dest` a symbolic link to `abs_src`,
/// written relative to `abs_dest` so that the link survives moving the tree
/// that holds both.
pub fn relative_symlink(abs_src: &AbsPath, abs_dest: &AbsPath) -> (r: Invocation)
    requires
        abs_src.wf(),
        abs_dest.wf(),
    ensures
        r@ == force_symlink_view(rel_text(relativize(abs_src@, abs_dest@)), abs_text(abs_dest@)),
{
    let rel_src = relativize_path(abs_src, abs_dest);
    let target = rel_src.to_path_string();
    let dest = abs_dest.to_path_string();
    force_symlink(target.as_str(), dest.as_str())
}

/// The invocation `git -C dir args...`: git with `dir` as its working
/// directory.
pub fn git(dir: &str, args: &[&str]) -> (r: Invocation)
    ensures
        r.program@ == git_program(),
        segs_view(r.args@) == seq![seq!['-', 'C'], dir@] + args@.map_values(|a: &str| a@),
{
    proof {
        reveal_strlit("git");
        reveal_strlit("-C");
    }
    let flag = string_of("-C");
    assert(flag@ =~= seq!['-', 'C']);
    let mut all: Vec<String> = Vec::new();
    all.push(flag);
    all.push(string_of(dir));
    let ghost head = seq![seq!['-', 'C'], dir@];
    assert(segs_view(all@) =~= head);
    let mut i: usize = 0;
    while i < args.len()
        invariant
            i <= args.len(),
            segs_view(all@) == head + args@.take(i as int).map_values(|a: &str| a@),
        decreases args.len() - i,
    {
        let s = string_of(args[i]);
        let ghost prev = all@;
        all.push(s);
        assert(segs_view(all@) =~= segs_view(prev).push(s@));
        assert(args@.take(i + 1).map_values(|a: &str| a@) =~= args@.take(i as int).map_values(
            |a: &str| a@,
        ).push(args@[i as int]@));
        assert(segs_view(all@) =~= head + args@.take(i + 1).map_values(|a: &str| a@));
        i = i + 1;
    }
    assert(args@.take(args.len() as int) =~= args@);
    let program = string_of("git");
    assert(program@ =~= git_program());
    Invocation { program, args: all }
}

/// The invocation `rustup target add triple`, which installs the standard
/// library for the target `triple`.
pub fn rustup_add(triple: &str) -> (r: Invocation)
    ensures
        r.program@ == rustup_program(),
        segs_view(r.args@) == seq![
            seq!['t', 'a', 'r', 'g', 'e', 't'],
            seq!['a', 'd', 'd'],
            triple@,
        ],
{
    proof {
        reveal_strlit("rustup");
        reveal_strlit("target");
        reveal_strlit("add");
    }
    let sub = string_of("target");
    assert(sub@ =~= seq!['t', 'a', 'r', 'g', 'e', 't']);
    let verb = string_of("add");
    assert(verb@ =~= seq!['a', 'd', 'd']);
    let mut args: Vec<String> = Vec::new();
    args.push(sub);
    args.push(verb);
    args.push(string_of(triple));
    let program = string_of("rustup");
    assert(program@ =~= rustup_program());
    let r = Invocation { program, args };
    assert(segs_view(r.args@) =~= seq![
        seq!['t', 'a', 'r', 'g', 'e', 't'],
        seq!['a', 'd', 'd'],
        triple@,
    ]);
    r
}

/// A search path with `dir` put in front of `current`, the two separated
/// by `:`.
pub fn add_to_path(dir: &str, current: &str) -> (r: String)
    ensures
        r@ == dir@ + seq![':'] + current@,
{
    proof {
        reveal_strlit(":");
    }
    assert(":"@ =~= seq![':']);
    let mut r = string_of(dir);
    r.append(":");
    r.append(current);
    r
}

} // verus!
