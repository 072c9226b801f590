use vstd::prelude::*;

verus! {

/// A pagination cursor for list operations: an optional offset and an
/// optional limit, both with defaults supplied by the accessors.
#[derive(Debug, Clone, Copy)]
pub struct Cursor {
    pub offset: Option<i64>,
    pub limit: Option<i64>,
}

impl Cursor {
    /// The offset value, defaulting to 0.
    pub fn get_offset(&self) -> (r: i64)
        ensures
            r == (match self.offset {
                Some(o) => o,
                None => 0,
            }),
    {
        match self.offset {
            Some(o) => o,
            None => 0,
        }
    }

    /// The limit value, defaulting to 10 and capped at 100.
    pub fn get_limit(&self) -> (r: i64)
        ensures
            r == (match self.limit {
                Some(l) => if l < 100 { l } else { 100 },
                None => 10,
            }),
            r <= 100,
    {
        match self.limit {
            Some(l) => if l < 100 {
                l
            } else {
                100
            },
            None => 10,
        }
    }
}

impl Default for Cursor {
    /// An empty cursor: no offset and no limit given.
    fn default() -> (r: Self)
        ensures
            r.offset is None,
            r.limit is None,
    {
        Cursor { offset: None, limit: None }
    }
}

} // verus!
