//! Command-line argument list handling.
use vstd::prelude::*;

verus! {

/// Takes the first argument off the list, if there is one.
pub fn shift(args: &mut Vec<String>) -> (r: Option<String>)
    ensures
        old(args)@.len() == 0 ==> r.is_none() && final(args)@ == old(args)@,
        old(args)@.len() > 0 ==> r == Some(old(args)@[0]) && final(args)@ == old(args)@.drop_first(),
{
    if args.is_empty() {
        None
    } else {
        let first = args.remove(0);
        proof {
            assert(old(args)@.remove(0) =~= old(args)@.drop_first());
        }
        Some(first)
    }
}

} // verus!
