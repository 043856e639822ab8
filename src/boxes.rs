use vstd::prelude::*;

verus! {

/// One container box as listed by the diagnostic dump: its four-character
/// type, its size in bytes, a one-line summary and a nesting depth.
#[derive(Clone, Debug)]
pub struct Box {
    pub name: String,
    pub size: u64,
    pub summary: String,
    pub indent: u32,
}

impl Default for Box {
    fn default() -> (r: Box)
        ensures
            r.name@.len() == 0,
            r.size == 0,
            r.summary@.len() == 0,
            r.indent == 0,
    {
        Box { name: String::new(), size: 0, summary: String::new(), indent: 0 }
    }
}

/// Builds the listing entry of one box, at depth zero.
pub fn build_box(name: String, size: u64, summary: String) -> (r: Box)
    ensures
        r.name@ == name@,
        r.size == size,
        r.summary@ == summary@,
        r.indent == 0,
{
    Box { name, size, summary, indent: 0 }
}

/// Builds the listing of boxes, in the order in which the reader reported
/// them as `(type, size, summary)`.
pub fn get_boxes(entries: &Vec<(String, u64, String)>) -> (r: Vec<Box>)
    ensures
        r@.len() == entries@.len(),
        forall|i: int|
            0 <= i < entries@.len() ==> {
                &&& (#[trigger] r@[i]).name@ == entries@[i].0@
                &&& r@[i].size == entries@[i].1
                &&& r@[i].summary@ == entries@[i].2@
                &&& r@[i].indent == 0
            },
{
    let mut r: Vec<Box> = Vec::new();
    let mut i: usize = 0;
    while i < entries.len()
        invariant
            0 <= i <= entries@.len(),
            r@.len() == i,
            forall|j: int|
                0 <= j < i ==> {
                    &&& (#[trigger] r@[j]).name@ == entries@[j].0@
                    &&& r@[j].size == entries@[j].1
                    &&& r@[j].summary@ == entries@[j].2@
                    &&& r@[j].indent == 0
                },
        decreases entries@.len() - i,
    {
        let entry = &entries[i];
        let b = build_box(entry.0.clone(), entry.1, entry.2.clone());
        r.push(b);
        i = i + 1;
    }
    r
}

} // verus!
