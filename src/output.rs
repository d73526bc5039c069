use vstd::prelude::*;

verus! {

/// Whether some device in `names` has the name `n`.
pub open spec fn has_name(names: Seq<String>, n: Seq<char>) -> bool {
    exists|j: int| 0 <= j < names.len() && (#[trigger] names[j])@ == n
}

/// The output device to open, by index into the listed device names: the
/// first one named `preferred`; else the last one named `fallback`; else the
/// first device; none when there is no device (the system default is used).
pub open spec fn chosen_device(names: Seq<String>, preferred: Seq<char>, fallback: Seq<char>, r: Option<usize>) -> bool {
    match r {
        Some(i) => i < names.len() && if has_name(names, preferred) {
            names[i as int]@ == preferred && forall|j: int| 0 <= j < i ==> (#[trigger] names[j])@ != preferred
        } else if has_name(names, fallback) {
            names[i as int]@ == fallback && forall|j: int| i < j < names.len() ==> (#[trigger] names[j])@ != fallback
        } else {
            i == 0
        },
        None => names.len() == 0,
    }
}

/// Picks the output device among the listed device names.
pub fn select_output_device(names: &Vec<String>, preferred: &String, fallback: &String) -> (r: Option<usize>)
    ensures
        chosen_device(names@, preferred@, fallback@, r),
{
    let n = names.len();
    let mut i: usize = 0;
    while i < n
        invariant
            n == names@.len(),
            i <= n,
            forall|j: int| 0 <= j < i ==> (#[trigger] names@[j])@ != preferred@,
        decreases n - i,
    {
        if names[i] == *preferred {
            return Some(i);
        }
        i = i + 1;
    }
    let mut k: usize = n;
    while k > 0
        invariant
            n == names@.len(),
            k <= n,
            !has_name(names@, preferred@),
            forall|j: int| k <= j < n ==> (#[trigger] names@[j])@ != fallback@,
        decreases k,
    {
        if names[k - 1] == *fallback {
            return Some(k - 1);
        }
        k = k - 1;
    }
    if n == 0 {
        None
    } else {
        Some(0)
    }
}

} // verus!
