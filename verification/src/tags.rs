//! Lists of enumeration values: distinctness, order, membership and position,
//! read through each value's declaration index.
use vstd::prelude::*;

verus! {

/// A field-less enumeration value, identified by its declaration index; the
/// derived order of such an enumeration is the order of these indices.
pub trait Tagged: Sized {
    spec fn tag(&self) -> nat;

    fn tag_of(&self) -> (r: u8)
        ensures
            r == self.tag(),
    ;
}

pub open spec fn distinct_tags<T: Tagged>(v: Seq<T>) -> bool {
    forall|i: int, j: int|
        #![trigger v[i].tag(), v[j].tag()]
        0 <= i < v.len() && 0 <= j < v.len() && i != j ==> v[i].tag() != v[j].tag()
}

/// Each entry is strictly below the next one in the declaration order.
pub open spec fn tags_increasing<T: Tagged>(v: Seq<T>) -> bool {
    forall|i: int| 0 <= i < v.len() - 1 ==> #[trigger] v[i].tag() < v[i + 1].tag()
}

pub open spec fn has_tag<T: Tagged>(v: Seq<T>, t: nat) -> bool {
    exists|i: int| 0 <= i < v.len() && #[trigger] v[i].tag() == t
}

/// `i` is the first position holding the value with index `t`.
pub open spec fn first_at<T: Tagged>(v: Seq<T>, t: nat, i: int) -> bool {
    &&& 0 <= i < v.len()
    &&& v[i].tag() == t
    &&& forall|k: int| 0 <= k < i ==> #[trigger] v[k].tag() != t
}

/// The first occurrence of `left` comes before the first occurrence of `right`.
pub open spec fn ordered_before_tags<T: Tagged>(v: Seq<T>, left: nat, right: nat) -> bool {
    exists|i: int, j: int| #![trigger first_at(v, left, i), first_at(v, right, j)]
        first_at(v, left, i) && first_at(v, right, j) && i < j
}

pub fn check_distinct_tags<T: Tagged>(v: &Vec<T>) -> (r: bool)
    ensures
        r == distinct_tags(v@),
{
    let mut i: usize = 0;
    while i < v.len()
        invariant
            i <= v.len(),
            forall|a: int, b: int|
                #![trigger v@[a].tag(), v@[b].tag()]
                0 <= a < i && 0 <= b < v.len() && a != b ==> v@[a].tag() != v@[b].tag(),
        decreases v.len() - i,
    {
        let ti = v[i].tag_of();
        let mut j: usize = 0;
        while j < v.len()
            invariant
                i < v.len(),
                j <= v.len(),
                ti == v@[i as int].tag(),
                forall|a: int, b: int|
                    #![trigger v@[a].tag(), v@[b].tag()]
                    0 <= a < i && 0 <= b < v.len() && a != b ==> v@[a].tag() != v@[b].tag(),
                forall|b: int| 0 <= b < j && b != i ==> ti != #[trigger] v@[b].tag(),
            decreases v.len() - j,
        {
            if j != i && v[j].tag_of() == ti {
                return false;
            }
            j = j + 1;
        }
        i = i + 1;
    }
    true
}

pub fn check_tags_increasing<T: Tagged>(v: &Vec<T>) -> (r: bool)
    ensures
        r == tags_increasing(v@),
{
    if v.len() < 2 {
        return true;
    }
    let mut i: usize = 0;
    while i + 1 < v.len()
        invariant
            v.len() >= 2,
            i + 1 <= v.len(),
            forall|j: int| 0 <= j < i ==> #[trigger] v@[j].tag() < v@[j + 1].tag(),
        decreases v.len() - i,
    {
        if v[i].tag_of() >= v[i + 1].tag_of() {
            return false;
        }
        i = i + 1;
    }
    true
}

pub fn check_has_tag<T: Tagged>(v: &Vec<T>, t: u8) -> (r: bool)
    ensures
        r == has_tag(v@, t as nat),
{
    first_position(v, t).is_some()
}

/// The first position that holds the value with index `t`, if any.
pub fn first_position<T: Tagged>(v: &Vec<T>, t: u8) -> (r: Option<usize>)
    ensures
        r matches Some(i) ==> first_at(v@, t as nat, i as int),
        r is None ==> !has_tag(v@, t as nat),
        r is Some <==> has_tag(v@, t as nat),
{
    let mut i: usize = 0;
    while i < v.len()
        invariant
            i <= v.len(),
            forall|k: int| 0 <= k < i ==> #[trigger] v@[k].tag() != t,
        decreases v.len() - i,
    {
        if v[i].tag_of() == t {
            return Some(i);
        }
        i = i + 1;
    }
    None
}

/// `values.iter().position(left) < values.iter().position(right)`, both present.
pub fn ordered_before<T: Tagged>(v: &Vec<T>, left: u8, right: u8) -> (r: bool)
    ensures
        r == ordered_before_tags(v@, left as nat, right as nat),
{
    let l = first_position(v, left);
    let rr = first_position(v, right);
    match (l, rr) {
        (Some(i), Some(j)) => {
            proof {
                if i >= j {
                    assert forall|a: int, b: int|
                        first_at(v@, left as nat, a) && first_at(v@, right as nat, b) implies !(a
                        < b) by {
                        if a != i as int {
                            if a < i {
                                assert(v@[a].tag() != left);
                            } else {
                                assert(v@[i as int].tag() != left);
                            }
                        }
                        if b != j as int {
                            if b < j {
                                assert(v@[b].tag() != right);
                            } else {
                                assert(v@[j as int].tag() != right);
                            }
                        }
                    }
                }
            }
            i < j
        },
        _ => {
            proof {
                assert forall|a: int, b: int|
                    first_at(v@, left as nat, a) && first_at(v@, right as nat, b) implies false by {
                    assert(has_tag(v@, left as nat));
                    assert(has_tag(v@, right as nat));
                }
            }
            false
        },
    }
}

} // verus!
