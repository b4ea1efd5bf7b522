//! The label resolver: extracts a human-readable name from a feature's
//! property set by probing a fixed, ordered list of candidate keys and
//! returning the first one that is present with a text value.

use vstd::prelude::*;
use crate::geometry::{Property, PropertyValue};

verus! {

broadcast use vstd::seq::group_seq_axioms, vstd::std_specs::vec::group_vec_axioms;

/// The candidate keys, in priority order.
pub open spec fn candidate_keys() -> Seq<Seq<char>> {
    seq!["name"@, "nom"@, "NAME"@, "nombre"@, "namn"@, "label"@]
}

/// The value under a key: the first entry whose key matches.
pub open spec fn prop_lookup(props: Seq<Property>, key: Seq<char>) -> Option<PropertyValue>
    decreases props.len(),
{
    if props.len() == 0 {
        None
    } else if props[0].key@ == key {
        Some(props[0].value)
    } else {
        prop_lookup(props.drop_first(), key)
    }
}

/// The first candidate key that is present with a text value, probed in
/// order.
pub open spec fn resolve_keys(props: Seq<Property>, keys: Seq<Seq<char>>) -> Option<Seq<char>>
    decreases keys.len(),
{
    if keys.len() == 0 {
        None
    } else {
        match prop_lookup(props, keys[0]) {
            Some(PropertyValue::Text(s)) => Some(s@),
            _ => resolve_keys(props, keys.drop_first()),
        }
    }
}

/// The resolved label of a property set: no properties, no candidate key
/// with a text value, all yield no label.
pub open spec fn spec_resolve_label(props: Option<Vec<Property>>) -> Option<Seq<char>> {
    match props {
        Some(ps) => resolve_keys(ps@, candidate_keys()),
        None => None,
    }
}

/// Looks a key up in a property list: the first entry whose key matches.
#[verifier::loop_isolation(false)]
fn lookup_value<'a>(props: &'a Vec<Property>, key: &String) -> (r: Option<&'a PropertyValue>)
    ensures
        match r {
            Some(v) => prop_lookup(props@, key@) == Some(*v),
            None => prop_lookup(props@, key@) is None,
        },
{
    let mut i: usize = 0;
    proof {
        assert(props@.subrange(0, props@.len() as int) =~= props@);
    }
    while i < props.len()
        invariant
            i <= props.len(),
            prop_lookup(props@, key@) == prop_lookup(
                props@.subrange(i as int, props@.len() as int),
                key@,
            ),
        decreases props.len() - i,
    {
        proof {
            let tail = props@.subrange(i as int, props@.len() as int);
            assert(tail.drop_first() =~= props@.subrange(i + 1 as int, props@.len() as int));
        }
        if props[i].key == *key {
            return Some(&props[i].value);
        }
        i += 1;
    }
    None
}

/// Probes one candidate key: present with a text value or not.
fn probe_key(props: &Vec<Property>, key: &String) -> (r: Option<String>)
    ensures
        match r {
            Some(s) => prop_lookup(props@, key@) == Some(PropertyValue::Text(s)),
            None => !(prop_lookup(props@, key@) matches Some(PropertyValue::Text(_))),
        },
{
    match lookup_value(props, key) {
        Some(PropertyValue::Text(s)) => Some(s.clone()),
        _ => None,
    }
}

/// Resolves the label of a feature's property set, probing the candidate
/// keys in priority order.
pub fn resolve_label(props: &Option<Vec<Property>>) -> (r: Option<String>)
    ensures
        match r {
            Some(s) => spec_resolve_label(*props) == Some(s@),
            None => spec_resolve_label(*props) is None,
        },
{
    match props {
        None => None,
        Some(ps) => {
            let ghost t0 = candidate_keys();
            let ghost t1 = t0.drop_first();
            let ghost t2 = t1.drop_first();
            let ghost t3 = t2.drop_first();
            let ghost t4 = t3.drop_first();
            let ghost t5 = t4.drop_first();
            let ghost t6 = t5.drop_first();
            if let Some(s) = probe_key(ps, &"name".to_owned()) {
                return Some(s);
            }
            proof {
                assert(resolve_keys(ps@, t0) == resolve_keys(ps@, t1));
            }
            if let Some(s) = probe_key(ps, &"nom".to_owned()) {
                proof {
                    assert(t1[0] == "nom"@);
                }
                return Some(s);
            }
            proof {
                assert(t1[0] == "nom"@);
                assert(resolve_keys(ps@, t1) == resolve_keys(ps@, t2));
            }
            if let Some(s) = probe_key(ps, &"NAME".to_owned()) {
                proof {
                    assert(t2[0] == "NAME"@);
                }
                return Some(s);
            }
            proof {
                assert(t2[0] == "NAME"@);
                assert(resolve_keys(ps@, t2) == resolve_keys(ps@, t3));
            }
            if let Some(s) = probe_key(ps, &"nombre".to_owned()) {
                proof {
                    assert(t3[0] == "nombre"@);
                }
                return Some(s);
            }
            proof {
                assert(t3[0] == "nombre"@);
                assert(resolve_keys(ps@, t3) == resolve_keys(ps@, t4));
            }
            if let Some(s) = probe_key(ps, &"namn".to_owned()) {
                proof {
                    assert(t4[0] == "namn"@);
                }
                return Some(s);
            }
            proof {
                assert(t4[0] == "namn"@);
                assert(resolve_keys(ps@, t4) == resolve_keys(ps@, t5));
            }
            if let Some(s) = probe_key(ps, &"label".to_owned()) {
                proof {
                    assert(t5[0] == "label"@);
                }
                return Some(s);
            }
            proof {
                assert(t5[0] == "label"@);
                assert(resolve_keys(ps@, t5) == resolve_keys(ps@, t6));
                assert(t6.len() == 0);
            }
            None
        },
    }
}

} // verus!
