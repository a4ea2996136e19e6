use vstd::prelude::*;
use vstd::pervasive::unreached;

use crate::error::ConfigError;
use crate::value::{entries_of, keyed, lookup, unique_keys, upsert, value_wf, find_entry, ConfigValue};

verus! {

/// The entries of the section named `name` in `doc`; empty when there is no
/// such section.
pub open spec fn section_entries(doc: ConfigValue, name: Seq<char>) -> Seq<(String, ConfigValue)> {
    match lookup(entries_of(doc), name) {
        Some(v) => entries_of(v),
        None => Seq::empty(),
    }
}

/// What it means for `m` to be `document` with the section named
/// `service_name` merged into its root.
pub open spec fn merged_document(document: ConfigValue, service_name: Seq<char>, m: ConfigValue) -> bool {
    let es = entries_of(document);
    let sec = section_entries(document, service_name);
    &&& m is Object
    &&& value_wf(m)
    // the root self-identifies its resolved service
    &&& lookup(entries_of(m), "name"@) matches Some(v) && v matches ConfigValue::Text(t) && t@
        == service_name
    // section keys win over same-named root keys
    &&& forall|k: Seq<char>| #![trigger lookup(entries_of(m), k)]
        k != "name"@ && keyed(sec, k) ==> lookup(entries_of(m), k) == lookup(sec, k)
    // a self-referential section keeps its key at the root
    &&& keyed(sec, service_name) ==> keyed(entries_of(m), service_name)
    // otherwise the now-inlined section key is gone from the root
    &&& !keyed(sec, service_name) && service_name != "name"@ ==> !keyed(
        entries_of(m),
        service_name,
    )
    // every other root key is untouched
    &&& forall|k: Seq<char>| #![trigger lookup(entries_of(m), k)]
        k != "name"@ && k != service_name && !keyed(sec, k) ==> lookup(entries_of(m), k)
            == lookup(es, k)
    // and no key appears from nowhere
    &&& forall|k: Seq<char>| #![trigger keyed(entries_of(m), k)]
        keyed(entries_of(m), k) ==> keyed(es, k) || keyed(sec, k) || k == "name"@
}

/// Merge the section named `service_name` into the root of `document`.
///
/// Every key of the section is inserted at the root, overwriting any root key
/// of the same name: section values take precedence over shared defaults. The
/// section's own key is then gone from the root, unless the section holds a
/// key equal to the service name, in which case that entry stays at the root.
/// Finally the root key `name` is set to the service name, overwriting any
/// prior value. When the document has no section of that name, the merge
/// fails with `SectionNotFound`.
#[verifier::loop_isolation(false)]
pub fn merge_section(document: ConfigValue, service_name: &str) -> (r: Result<ConfigValue, ConfigError>)
    requires
        document is Object,
        value_wf(document),
        lookup(entries_of(document), service_name@) matches Some(v) ==> v is Object,
    ensures
        r is Ok <==> keyed(entries_of(document), service_name@),
        r matches Err(e) ==> e matches ConfigError::SectionNotFound { name } && name@
            == service_name@,
        r matches Ok(m) ==> merged_document(document, service_name@, m),
{
    let ghost orig = entries_of(document);
    let mut entries: Vec<(String, ConfigValue)> = match document {
        ConfigValue::Object(es) => es,
        _ => unreached(),
    };
    let idx = match find_entry(&entries, service_name) {
        Some(i) => i,
        None => {
            proof {
                crate::value::lemma_lookup_keyed(orig, service_name@);
            }
            return Err(ConfigError::SectionNotFound { name: service_name.to_owned() });
        },
    };
    let (_svc_key, sec_val) = entries.remove(idx);
    proof {
        assert forall|k: Seq<char>| true implies #[trigger] lookup(entries@, k) == if k
            == service_name@ {
            None::<ConfigValue>
        } else {
            lookup(orig, k)
        } by {
            crate::value::lemma_lookup_remove(orig, idx as int, k);
        }
        crate::value::lemma_lookup_remove(orig, idx as int, service_name@);
        assert(value_wf(sec_val)) by {
            assert(value_wf(orig[idx as int].1));
        }
    }
    let mut sec: Vec<(String, ConfigValue)> = match sec_val {
        ConfigValue::Object(s) => s,
        _ => unreached(),
    };
    let ghost secorig = sec@;
    let ghost base = entries@;
    proof {
        assert(forall|i: int| 0 <= i < base.len() ==> value_wf(#[trigger] base[i].1)) by {
            assert(forall|i: int|
                0 <= i < base.len() ==> base[i] == orig[i] || base[i] == orig[i + 1]);
        }
    }
    proof {
        assert forall|k: Seq<char>| true implies #[trigger] lookup(base, k) == if keyed(
            secorig.take(0),
            k,
        ) {
            lookup(secorig.take(0), k)
        } else if keyed(base, k) {
            lookup(base, k)
        } else {
            None::<ConfigValue>
        } by {
            crate::value::lemma_lookup_keyed(base, k);
        }
    }
    let ghost mut p: int = 0;
    while sec.len() > 0
        invariant
            unique_keys(entries@),
            0 <= p <= secorig.len(),
            sec@ =~= secorig.skip(p),
            forall|i: int| 0 <= i < entries@.len() ==> value_wf(#[trigger] entries@[i].1),
            forall|k: Seq<char>| #![trigger lookup(entries@, k)]
                lookup(entries@, k) == if keyed(secorig.take(p), k) {
                    lookup(secorig.take(p), k)
                } else if keyed(base, k) {
                    lookup(base, k)
                } else {
                    None::<ConfigValue>
                },
        decreases sec.len(),
    {
        let (k0, v0) = sec.remove(0);
        let ghost gk = k0@;
        let ghost gv = v0;
        proof {
            assert((k0, v0) == secorig[p]);
            assert(sec@ =~= secorig.skip(p + 1));
            assert(value_wf(gv)) by {
                assert(value_wf(secorig[p].1));
            }
        }
        upsert(&mut entries, k0, v0);
        proof {
            let taken = secorig.take(p);
            let taken1 = secorig.take(p + 1);
            assert(taken1 =~= taken.push(secorig[p]));
            assert forall|k: Seq<char>| true implies #[trigger] lookup(entries@, k) == if keyed(
                taken1,
                k,
            ) {
                lookup(taken1, k)
            } else if keyed(base, k) {
                lookup(base, k)
            } else {
                None::<ConfigValue>
            } by {
                crate::value::lemma_lookup_push(taken, secorig[p], k);
                crate::value::lemma_lookup_keyed(taken, k);
                crate::value::lemma_lookup_keyed(taken1, k);
                if k == gk {
                    // the section's keys are distinct, so this key is fresh in `taken`
                    assert(!keyed(taken, k)) by {
                        if keyed(taken, k) {
                            let j = choose|j: int| 0 <= j < taken.len() && taken[j].0@ == k;
                            assert(secorig[j].0@ == secorig[p].0@);
                            assert(false);
                        }
                    }
                }
            }
        }
        proof {
            p = p + 1;
        }
    }
    proof {
        assert(secorig.take(p) =~= secorig);
    }
    let name_key: String = "name".to_owned();
    let name_val = ConfigValue::Text(service_name.to_owned());
    let ghost gname_val = name_val;
    let ghost gpre = entries@;
    upsert(&mut entries, name_key, name_val);
    proof {
        assert(value_wf(gname_val));
        assert forall|i: int| 0 <= i < entries@.len() implies value_wf(
            #[trigger] entries@[i].1,
        ) by {
            if entries@[i].1 != gname_val {
                let j = choose|j: int| 0 <= j < gpre.len() && entries@[i] == gpre[j];
                assert(value_wf(gpre[j].1));
            }
        }
        crate::value::lemma_lookup_keyed(orig, service_name@);
        crate::value::lemma_lookup_keyed(secorig, service_name@);
        assert(lookup(entries@, "name"@) == Some(gname_val));
        assert forall|k: Seq<char>| #[trigger] keyed(entries@, k) implies keyed(orig, k) || keyed(
            secorig,
            k,
        ) || k == "name"@ by {
            crate::value::lemma_lookup_keyed(entries@, k);
            crate::value::lemma_lookup_keyed(secorig, k);
            crate::value::lemma_lookup_keyed(base, k);
            crate::value::lemma_lookup_keyed(orig, k);
        }
        if keyed(secorig, service_name@) {
            crate::value::lemma_lookup_keyed(entries@, service_name@);
        }
        if !keyed(secorig, service_name@) && service_name@ != "name"@ {
            crate::value::lemma_lookup_keyed(entries@, service_name@);
        }
    }
    Ok(ConfigValue::Object(entries))
}

} // verus!
