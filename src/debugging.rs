use vstd::prelude::*;

verus! {

/// The guard of a loop that may run at most `while_cap` times: counts one
/// more run, or answers `true` once the cap is reached.
pub fn is_infinite_while(while_count: &mut usize, while_cap: usize) -> (r: bool)
    ensures
        r == (*old(while_count) >= while_cap),
        r ==> *final(while_count) == *old(while_count),
        !r ==> *final(while_count) == *old(while_count) + 1,
{
    if *while_count >= while_cap {
        return true;
    }
    *while_count += 1;
    false
}

/// The two characters of tree padding at level `i` of `indent` levels: a
/// branch at the last level, a bar at levels 2 and 3, blanks elsewhere.
pub open spec fn spacing(indent: usize, i: usize) -> Seq<char> {
    if i + 1 == indent {
        seq!['|', '-']
    } else if i == 2 || i == 3 {
        seq!['|', ' ']
    } else {
        seq![' ', ' ']
    }
}

/// Adds the padding of level `i` of a tree line indented `indent` levels.
pub fn add_spacing(indent: usize, padding: &mut Vec<char>, i: usize)
    ensures
        final(padding)@ == old(padding)@ + spacing(indent, i),
{
    if indent > 0 && i == indent - 1 {
        padding.push('|');
        padding.push('-');
    } else if i == 2 || i == 3 {
        padding.push('|');
        padding.push(' ');
    } else {
        padding.push(' ');
        padding.push(' ');
    }
    assert(padding@ =~= old(padding)@ + spacing(indent, i));
}

} // verus!
