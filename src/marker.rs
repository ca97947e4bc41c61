use vstd::prelude::*;

verus! {

/// Tag byte of the first application marker, APP0.
pub const APP0: u8 = 0xE0;

/// Tag byte of the comment marker.
pub const COM: u8 = 0xFE;

/// A marker segment kind that a session can be asked to keep: one of the
/// sixteen application markers, or the comment marker.
#[allow(non_camel_case_types)]
#[derive(Clone, Copy, Debug, PartialEq, Eq)]
pub enum Marker {
    APP(u8),
    COM,
}

impl Marker {
    /// Application markers are numbered 0 to 15.
    pub open spec fn wf(self) -> bool {
        match self {
            Marker::APP(n) => n < 16,
            Marker::COM => true,
        }
    }

    /// The marker's tag byte in the bitstream.
    pub open spec fn tag_spec(self) -> u8 {
        match self {
            Marker::APP(n) => (APP0 + n) as u8,
            Marker::COM => COM,
        }
    }

    /// The marker's tag byte in the bitstream.
    pub fn tag(&self) -> (r: u8)
        requires
            self.wf(),
        ensures
            r == self.tag_spec(),
    {
        match self {
            Marker::APP(n) => APP0 + *n,
            Marker::COM => COM,
        }
    }

    /// The marker that a tag byte stands for, if it is an application or
    /// comment tag.
    pub fn from_tag(tag: u8) -> (r: Option<Marker>)
        ensures
            r is Some <==> is_keepable_tag(tag),
            r matches Some(m) ==> m.wf() && m.tag_spec() == tag,
    {
        if tag == COM {
            Some(Marker::COM)
        } else if APP0 <= tag && tag < APP0 + 16 {
            Some(Marker::APP(tag - APP0))
        } else {
            None
        }
    }
}

/// Tags of the application markers and of the comment marker.
pub open spec fn is_keepable_tag(tag: u8) -> bool {
    (APP0 <= tag < APP0 + 16) || tag == COM
}

/// Keep no marker segments.
pub fn no_markers() -> (r: Vec<Marker>)
    ensures
        r@.len() == 0,
{
    Vec::new()
}

/// Keep every application marker segment and every comment.
pub fn all_markers() -> (r: Vec<Marker>)
    ensures
        r@.len() == 17,
        forall|i: int| 0 <= i < 16 ==> r@[i] == Marker::APP(i as u8),
        r@[16] == Marker::COM,
{
    let mut v: Vec<Marker> = Vec::new();
    let mut n: u8 = 0;
    while n < 16
        invariant
            0 <= n <= 16,
            v@.len() == n,
            forall|i: int| 0 <= i < n ==> v@[i] == Marker::APP(i as u8),
        decreases 16 - n,
    {
        v.push(Marker::APP(n));
        n = n + 1;
    }
    v.push(Marker::COM);
    v
}

/// Tags that a session registers with the engine for a requested marker list,
/// in the order requested.
pub fn marker_tags(requested: &Vec<Marker>) -> (r: Vec<u8>)
    requires
        forall|i: int| 0 <= i < requested@.len() ==> (#[trigger] requested@[i]).wf(),
    ensures
        r@ == requested@.map_values(|m: Marker| m.tag_spec()),
{
    let mut tags: Vec<u8> = Vec::new();
    let mut i: usize = 0;
    while i < requested.len()
        invariant
            forall|k: int| 0 <= k < requested@.len() ==> (#[trigger] requested@[k]).wf(),
            0 <= i <= requested.len(),
            tags@ == requested@.subrange(0, i as int).map_values(|m: Marker| m.tag_spec()),
        decreases requested.len() - i,
    {
        tags.push(requested[i].tag());
        assert(requested@.subrange(0, i + 1) == requested@.subrange(0, i as int).push(requested@[i as int]));
        i = i + 1;
    }
    assert(requested@.subrange(0, requested@.len() as int) == requested@);
    tags
}

/// Asking for no markers registers no tag with the engine, and asking for
/// all markers registers exactly the application and comment tags.
pub proof fn lemma_marker_selection(none: Seq<Marker>, all: Seq<Marker>, t: u8)
    requires
        none.len() == 0,
        all.len() == 17,
        forall|i: int| 0 <= i < 16 ==> all[i] == Marker::APP(i as u8),
        all[16] == Marker::COM,
    ensures
        none.map_values(|m: Marker| m.tag_spec()).len() == 0,
        all.map_values(|m: Marker| m.tag_spec()).contains(t) <==> is_keepable_tag(t),
{
    let s = all.map_values(|m: Marker| m.tag_spec());
    if is_keepable_tag(t) {
        if t == COM {
            assert(s[16] == t);
        } else {
            let i = (t - APP0) as int;
            assert(s[i] == t);
        }
    }
    if s.contains(t) {
        let k = choose|k: int| 0 <= k < s.len() && s[k] == t;
        assert(s[k] == all[k].tag_spec());
    }
}

} // verus!
