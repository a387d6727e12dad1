use vstd::prelude::*;

verus! {

/// Whether two strings hold the same characters.
pub fn str_equals(a: &str, b: &str) -> (r: bool)
    ensures
        r == (a@ == b@),
{
    let x = String::from_str(a);
    let y = String::from_str(b);
    x == y
}

/// Whether `a` holds the same characters as one of `options`.
pub fn str_in(a: &str, options: &[&str]) -> (r: bool)
    ensures
        r == exists|i: int| 0 <= i < options@.len() && a@ == (#[trigger] options@[i])@,
{
    let mut i: usize = 0;
    while i < options.len()
        invariant
            i <= options@.len(),
            forall|j: int| 0 <= j < i ==> a@ != (#[trigger] options@[j])@,
        decreases options@.len() - i,
    {
        if str_equals(a, options[i]) {
            return true;
        }
        i = i + 1;
    }
    false
}

} // verus!
