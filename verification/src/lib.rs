//! Core logic of a small desktop greeting application: the greeting command
//! invoked from the embedded front-end, and the startup decision of whether
//! a debugging panel should be opened.
use vstd::prelude::*;

verus! {

/// The greeting produced for a given name: the fixed template with the name
/// embedded between the salutation and the closing sentence.
pub open spec fn greeting_of(name: Seq<char>) -> Seq<char> {
    "Hello, "@ + name + "! You've been greeted from Rust!"@
}

/// Format the greeting returned to the front-end for `name`.
pub fn greet(name: &str) -> (r: String)
    ensures
        r@ == greeting_of(name@),
{
    let mut out: String = String::from_str("Hello, ");
    out.append(name);
    out.append("! You've been greeted from Rust!");
    out
}

/// Whether the needle occurs in the haystack as a contiguous substring.
pub open spec fn contains_seq(hay: Seq<char>, needle: Seq<char>) -> bool {
    exists|i: int|
        0 <= i && i + needle.len() <= hay.len() && #[trigger] hay.subrange(i, i + needle.len())
            == needle
}

/// The greeting embeds the caller's name: for every name, the greeting
/// contains it as a contiguous substring, right after the salutation.
pub proof fn lemma_greeting_contains_name(name: Seq<char>)
    ensures
        contains_seq(greeting_of(name), name),
        greeting_of(name).len() == name.len() + 39,
{
    reveal_strlit("Hello, ");
    reveal_strlit("! You've been greeted from Rust!");
    let g = greeting_of(name);
    assert(g.subrange(7, 7 + name.len() as int) =~= name);
}

/// Whether the debugging panel was requested on the command line: true
/// exactly when some argument is the flag `--dev`.
pub fn devtools_requested(args: &Vec<String>) -> (r: bool)
    ensures
        r == exists|i: int| 0 <= i < args@.len() && args@[i]@ == "--dev"@,
{
    let dev: String = String::from_str("--dev");
    let mut k: usize = 0;
    while k < args.len()
        invariant
            k <= args@.len(),
            dev@ == "--dev"@,
            forall|i: int| 0 <= i < k ==> args@[i]@ != "--dev"@,
        decreases args@.len() - k,
    {
        if args[k].eq(&dev) {
            return true;
        }
        k += 1;
    }
    false
}

} // verus!
