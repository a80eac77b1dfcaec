use vstd::prelude::*;

verus! {

/// The position of the selected cannon among the cannons' names: the first
/// named `selected`, or else the first cannon; `None` when there is none.
pub fn selected_cannon_index(names: &Vec<String>, selected: &String) -> (r: Option<usize>)
    ensures
        r is None <==> names@.len() == 0,
        r matches Some(i) ==> i < names@.len() && ({
            ||| names@[i as int]@ == selected@ && forall|j: int|
                0 <= j < i ==> names@[j]@ != selected@
            ||| i == 0 && forall|j: int| 0 <= j < names@.len() ==> names@[j]@ != selected@
        }),
{
    let mut i: usize = 0;
    while i < names.len()
        invariant
            i <= names@.len(),
            forall|j: int| 0 <= j < i ==> names@[j]@ != selected@,
        decreases names.len() - i,
    {
        if names[i] == *selected {
            return Some(i);
        }
        i += 1;
    }
    if names.len() == 0 {
        None
    } else {
        Some(0)
    }
}

} // verus!
