//! The parameter builder: typed filter options become an ordered list of
//! query-string key/value pairs, one pair per set field and nothing else.
//! A per-call datacenter overrides the client-wide default; if neither is
//! set, no `dc` pair is sent.

use vstd::prelude::*;
use vstd::string::StringExecFns;
use crate::health::{
    CheckOptions, CheckOptionsV, NodeOptions, NodeOptionsV, ServiceOptions, ServiceOptionsV,
    StateOptions, StateOptionsV,
};
use crate::strutil::{bool_to_str, parse_bool, parse_bool_spec, spec_bool_str, str_eq};
use crate::Client;

verus! {

/// One optional parameter: nothing when the field is unset, one pair when set.
pub open spec fn opt_param(key: Seq<char>, v: Option<Seq<char>>) -> Seq<(Seq<char>, Seq<char>)> {
    match v {
        Some(s) => seq![(key, s)],
        None => Seq::<(Seq<char>, Seq<char>)>::empty(),
    }
}

/// The datacenter actually sent: the per-call one when set, else the
/// client-wide default, else nothing.
pub open spec fn spec_effective_dc(
    call_dc: Option<Seq<char>>,
    default_dc: Option<Seq<char>>,
) -> Option<Seq<char>> {
    if call_dc is Some {
        call_dc
    } else {
        default_dc
    }
}

/// A boolean filter serializes as its textual `true`/`false` form.
pub open spec fn spec_bool_param(b: Option<bool>) -> Option<Seq<char>> {
    match b {
        Some(x) => Some(spec_bool_str(x)),
        None => None,
    }
}

pub open spec fn spec_node_params(
    o: Option<NodeOptionsV>,
    default_dc: Option<Seq<char>>,
) -> Seq<(Seq<char>, Seq<char>)> {
    let ov = match o {
        Some(v) => v,
        None => NodeOptionsV { dc: None },
    };
    opt_param("dc"@, spec_effective_dc(ov.dc, default_dc))
}

pub open spec fn spec_check_params(
    o: Option<CheckOptionsV>,
    default_dc: Option<Seq<char>>,
) -> Seq<(Seq<char>, Seq<char>)> {
    let ov = match o {
        Some(v) => v,
        None => CheckOptionsV { dc: None, near: None, node_meta: None },
    };
    opt_param("dc"@, spec_effective_dc(ov.dc, default_dc)) + opt_param("near"@, ov.near)
        + opt_param("node-meta"@, ov.node_meta)
}

pub open spec fn spec_service_params(
    o: Option<ServiceOptionsV>,
    default_dc: Option<Seq<char>>,
) -> Seq<(Seq<char>, Seq<char>)> {
    let ov = match o {
        Some(v) => v,
        None => ServiceOptionsV { dc: None, near: None, tag: None, node_meta: None, passing: None },
    };
    opt_param("dc"@, spec_effective_dc(ov.dc, default_dc)) + opt_param("near"@, ov.near)
        + opt_param("tag"@, ov.tag) + opt_param("node-meta"@, ov.node_meta) + opt_param(
        "passing"@,
        spec_bool_param(ov.passing),
    )
}

pub open spec fn spec_state_params(
    o: Option<StateOptionsV>,
    default_dc: Option<Seq<char>>,
) -> Seq<(Seq<char>, Seq<char>)> {
    let ov = match o {
        Some(v) => v,
        None => StateOptionsV { dc: None, near: None, node_meta: None },
    };
    opt_param("dc"@, spec_effective_dc(ov.dc, default_dc)) + opt_param("near"@, ov.near)
        + opt_param("node-meta"@, ov.node_meta)
}

/// Append one optional parameter.
pub(crate) fn push_opt_param(params: &mut Vec<(String, String)>, key: &str, v: Option<&String>)
    ensures
        final(params).deep_view() == old(params).deep_view() + opt_param(key@, v.deep_view()),
{
    match v {
        Some(s) => {
            params.push((key.to_owned(), s.clone()));
            proof {
                assert(params.deep_view() =~= old(params).deep_view() + opt_param(
                    key@,
                    v.deep_view(),
                ));
            }
        },
        None => {
            proof {
                assert(params.deep_view() =~= old(params).deep_view() + opt_param(
                    key@,
                    v.deep_view(),
                ));
            }
        },
    }
}

impl Client {
    /// The datacenter to send, if any: per-call first, then the default.
    fn effective_dc<'a>(&'a self, call_dc: Option<&'a String>) -> (r: Option<&'a String>)
        ensures
            r.deep_view() == spec_effective_dc(
                call_dc.deep_view(),
                self.config.datacenter.deep_view(),
            ),
    {
        match call_dc {
            Some(d) => Some(d),
            None => match &self.config.datacenter {
                Some(d) => Some(d),
                None => None,
            },
        }
    }

    /// Parameters for the checks-for-node listing.
    pub fn node_params(&self, options: Option<&NodeOptions>) -> (r: Vec<(String, String)>)
        ensures
            r.deep_view() == spec_node_params(
                options.deep_view(),
                self.config.datacenter.deep_view(),
            ),
    {
        let mut params: Vec<(String, String)> = Vec::new();
        let call_dc = match options {
            Some(o) => match &o.dc {
                Some(d) => Some(d),
                None => None,
            },
            None => None,
        };
        let dc = self.effective_dc(call_dc);
        push_opt_param(&mut params, "dc", dc);
        proof {
            assert(params.deep_view() =~= spec_node_params(
                options.deep_view(),
                self.config.datacenter.deep_view(),
            ));
        }
        params
    }

    /// Parameters for the checks-for-service listing.
    pub fn check_params(&self, options: Option<&CheckOptions>) -> (r: Vec<(String, String)>)
        ensures
            r.deep_view() == spec_check_params(
                options.deep_view(),
                self.config.datacenter.deep_view(),
            ),
    {
        let mut params: Vec<(String, String)> = Vec::new();
        let call_dc = match options {
            Some(o) => match &o.dc {
                Some(d) => Some(d),
                None => None,
            },
            None => None,
        };
        let dc = self.effective_dc(call_dc);
        push_opt_param(&mut params, "dc", dc);
        let near = match options {
            Some(o) => match &o.near {
                Some(v) => Some(v),
                None => None,
            },
            None => None,
        };
        push_opt_param(&mut params, "near", near);
        let node_meta = match options {
            Some(o) => match &o.node_meta {
                Some(v) => Some(v),
                None => None,
            },
            None => None,
        };
        push_opt_param(&mut params, "node-meta", node_meta);
        proof {
            assert(params.deep_view() =~= spec_check_params(
                options.deep_view(),
                self.config.datacenter.deep_view(),
            ));
        }
        params
    }

    /// Parameters for the service-health listing.
    pub fn service_params(&self, options: Option<&ServiceOptions>) -> (r: Vec<(String, String)>)
        ensures
            r.deep_view() == spec_service_params(
                options.deep_view(),
                self.config.datacenter.deep_view(),
            ),
    {
        let mut params: Vec<(String, String)> = Vec::new();
        let call_dc = match options {
            Some(o) => match &o.dc {
                Some(d) => Some(d),
                None => None,
            },
            None => None,
        };
        let dc = self.effective_dc(call_dc);
        push_opt_param(&mut params, "dc", dc);
        let near = match options {
            Some(o) => match &o.near {
                Some(v) => Some(v),
                None => None,
            },
            None => None,
        };
        push_opt_param(&mut params, "near", near);
        let tag = match options {
            Some(o) => match &o.tag {
                Some(v) => Some(v),
                None => None,
            },
            None => None,
        };
        push_opt_param(&mut params, "tag", tag);
        let node_meta = match options {
            Some(o) => match &o.node_meta {
                Some(v) => Some(v),
                None => None,
            },
            None => None,
        };
        push_opt_param(&mut params, "node-meta", node_meta);
        match options {
            Some(o) => match o.passing {
                Some(b) => {
                    params.push(("passing".to_owned(), bool_to_str(b).to_owned()));
                },
                None => {},
            },
            None => {},
        }
        proof {
            assert(params.deep_view() =~= spec_service_params(
                options.deep_view(),
                self.config.datacenter.deep_view(),
            ));
        }
        params
    }

    /// Parameters for the checks-in-state listing.
    pub fn state_params(&self, options: Option<&StateOptions>) -> (r: Vec<(String, String)>)
        ensures
            r.deep_view() == spec_state_params(
                options.deep_view(),
                self.config.datacenter.deep_view(),
            ),
    {
        let mut params: Vec<(String, String)> = Vec::new();
        let call_dc = match options {
            Some(o) => match &o.dc {
                Some(d) => Some(d),
                None => None,
            },
            None => None,
        };
        let dc = self.effective_dc(call_dc);
        push_opt_param(&mut params, "dc", dc);
        let near = match options {
            Some(o) => match &o.near {
                Some(v) => Some(v),
                None => None,
            },
            None => None,
        };
        push_opt_param(&mut params, "near", near);
        let node_meta = match options {
            Some(o) => match &o.node_meta {
                Some(v) => Some(v),
                None => None,
            },
            None => None,
        };
        push_opt_param(&mut params, "node-meta", node_meta);
        proof {
            assert(params.deep_view() =~= spec_state_params(
                options.deep_view(),
                self.config.datacenter.deep_view(),
            ));
        }
        params
    }
}

// Reading a parameter list back.
/// First value under `key` in a parameter list.
pub open spec fn spec_assoc(ps: Seq<(Seq<char>, Seq<char>)>, key: Seq<char>) -> Option<Seq<char>>
    decreases ps.len(),
{
    if ps.len() == 0 {
        None
    } else if ps[0].0 == key {
        Some(ps[0].1)
    } else {
        spec_assoc(ps.skip(1), key)
    }
}

/// Look a key up in a parameter list.
pub fn params_get<'a>(ps: &'a Vec<(String, String)>, key: &str) -> (r: Option<&'a String>)
    ensures
        match r {
            Some(v) => spec_assoc(ps.deep_view(), key@) == Some(v@),
            None => spec_assoc(ps.deep_view(), key@) is None,
        },
{
    let ghost full = ps.deep_view();
    proof {
        assert(full.skip(0) =~= full);
    }
    let mut i: usize = 0;
    while i < ps.len()
        invariant
            0 <= i <= ps.len(),
            full == ps.deep_view(),
            full.len() == ps@.len(),
            spec_assoc(full, key@) == spec_assoc(full.skip(i as int), key@),
        decreases ps.len() - i,
    {
        if str_eq(ps[i].0.as_str(), key) {
            proof {
                assert(full.skip(i as int)[0] == full[i as int]);
            }
            return Some(&ps[i].1);
        }
        proof {
            assert(full.skip(i as int)[0] == full[i as int]);
            assert(full.skip(i as int).skip(1) =~= full.skip(i + 1));
        }
        i = i + 1;
    }
    proof {
        assert(full.skip(i as int) =~= Seq::<(Seq<char>, Seq<char>)>::empty());
    }
    None
}

/// What reading service options back out of a parameter list yields: each
/// filter is the first value under its key; a `passing` value that is not a
/// textual boolean is a refusal.
pub open spec fn spec_service_options_of_params(ps: Seq<(Seq<char>, Seq<char>)>) -> Option<
    ServiceOptionsV,
> {
    let passing = spec_assoc(ps, "passing"@);
    match passing {
        Some(pv) => match parse_bool_spec(pv) {
            Some(b) => Some(
                ServiceOptionsV {
                    dc: spec_assoc(ps, "dc"@),
                    near: spec_assoc(ps, "near"@),
                    tag: spec_assoc(ps, "tag"@),
                    node_meta: spec_assoc(ps, "node-meta"@),
                    passing: Some(b),
                },
            ),
            None => None,
        },
        None => Some(
            ServiceOptionsV {
                dc: spec_assoc(ps, "dc"@),
                near: spec_assoc(ps, "near"@),
                tag: spec_assoc(ps, "tag"@),
                node_meta: spec_assoc(ps, "node-meta"@),
                passing: None,
            },
        ),
    }
}

/// Read service options back out of a parameter list.
pub fn service_options_from_params(ps: &Vec<(String, String)>) -> (r: Option<ServiceOptions>)
    ensures
        match r {
            Some(o) => spec_service_options_of_params(ps.deep_view()) == Some(o@),
            None => spec_service_options_of_params(ps.deep_view()) is None,
        },
{
    let passing = match params_get(ps, "passing") {
        Some(pv) => match parse_bool(pv.as_str()) {
            Some(b) => Some(b),
            None => {
                return None;
            },
        },
        None => None,
    };
    let dc = match params_get(ps, "dc") {
        Some(v) => Some(v.clone()),
        None => None,
    };
    let near = match params_get(ps, "near") {
        Some(v) => Some(v.clone()),
        None => None,
    };
    let tag = match params_get(ps, "tag") {
        Some(v) => Some(v.clone()),
        None => None,
    };
    let node_meta = match params_get(ps, "node-meta") {
        Some(v) => Some(v.clone()),
        None => None,
    };
    Some(ServiceOptions { dc, near, tag, node_meta, passing })
}

proof fn lemma_assoc_concat(a: Seq<(Seq<char>, Seq<char>)>, b: Seq<(Seq<char>, Seq<char>)>, key: Seq<char>)
    ensures
        spec_assoc(a + b, key) == if spec_assoc(a, key) is Some {
            spec_assoc(a, key)
        } else {
            spec_assoc(b, key)
        },
    decreases a.len(),
{
    if a.len() == 0 {
        assert(a + b =~= b);
    } else {
        assert((a + b)[0] == a[0]);
        assert((a + b).skip(1) =~= a.skip(1) + b);
        lemma_assoc_concat(a.skip(1), b, key);
    }
}

proof fn lemma_assoc_opt(k: Seq<char>, v: Option<Seq<char>>, key: Seq<char>)
    ensures
        spec_assoc(opt_param(k, v), key) == if k == key {
            v
        } else {
            None::<Seq<char>>
        },
{
    match v {
        Some(s) => {
            let ps = opt_param(k, v);
            assert(ps.len() == 1);
            assert(ps[0] == (k, s));
            assert(ps.skip(1) =~= Seq::<(Seq<char>, Seq<char>)>::empty());
            assert(spec_assoc(ps.skip(1), key) is None);
        },
        None => {},
    }
}

/// The parameter builder emits exactly the set fields: filter options with
/// only a tag produce the one `tag` pair and nothing else.
pub proof fn lemma_params_only_set_fields(tag: Seq<char>)
    ensures
        spec_service_params(
            Some(ServiceOptionsV { dc: None, near: None, tag: Some(tag), node_meta: None, passing: None }),
            None,
        ) =~= seq![("tag"@, tag)],
{
}

/// Round trip: encoding service options (with no client-wide datacenter
/// default merged in) and reading the parameter list back yields the same
/// options, field for field.
pub proof fn lemma_service_params_round_trip(o: ServiceOptionsV)
    ensures
        spec_service_options_of_params(spec_service_params(Some(o), None)) == Some(o),
{
    reveal_strlit("dc");
    reveal_strlit("near");
    reveal_strlit("tag");
    reveal_strlit("node-meta");
    reveal_strlit("passing");
    reveal_strlit("true");
    reveal_strlit("false");
    assert("dc"@.len() == 2);
    assert("near"@.len() == 4);
    assert("tag"@.len() == 3);
    assert("node-meta"@.len() == 9);
    assert("passing"@.len() == 7);
    assert("true"@.len() == 4);
    assert("false"@.len() == 5);
    let s1 = opt_param("dc"@, spec_effective_dc(o.dc, None));
    let s2 = opt_param("near"@, o.near);
    let s3 = opt_param("tag"@, o.tag);
    let s4 = opt_param("node-meta"@, o.node_meta);
    let s5 = opt_param("passing"@, spec_bool_param(o.passing));
    let ps = spec_service_params(Some(o), None);
    assert(ps == s1 + s2 + s3 + s4 + s5);
    lemma_assoc_keys(s1, s2, s3, s4, s5, "dc"@);
    lemma_assoc_keys(s1, s2, s3, s4, s5, "near"@);
    lemma_assoc_keys(s1, s2, s3, s4, s5, "tag"@);
    lemma_assoc_keys(s1, s2, s3, s4, s5, "node-meta"@);
    lemma_assoc_keys(s1, s2, s3, s4, s5, "passing"@);
    lemma_assoc_opt("dc"@, spec_effective_dc(o.dc, None), "dc"@);
    lemma_assoc_opt("near"@, o.near, "dc"@);
    lemma_assoc_opt("tag"@, o.tag, "dc"@);
    lemma_assoc_opt("node-meta"@, o.node_meta, "dc"@);
    lemma_assoc_opt("passing"@, spec_bool_param(o.passing), "dc"@);
    lemma_assoc_opt("dc"@, spec_effective_dc(o.dc, None), "near"@);
    lemma_assoc_opt("near"@, o.near, "near"@);
    lemma_assoc_opt("tag"@, o.tag, "near"@);
    lemma_assoc_opt("node-meta"@, o.node_meta, "near"@);
    lemma_assoc_opt("passing"@, spec_bool_param(o.passing), "near"@);
    lemma_assoc_opt("dc"@, spec_effective_dc(o.dc, None), "tag"@);
    lemma_assoc_opt("near"@, o.near, "tag"@);
    lemma_assoc_opt("tag"@, o.tag, "tag"@);
    lemma_assoc_opt("node-meta"@, o.node_meta, "tag"@);
    lemma_assoc_opt("passing"@, spec_bool_param(o.passing), "tag"@);
    lemma_assoc_opt("dc"@, spec_effective_dc(o.dc, None), "node-meta"@);
    lemma_assoc_opt("near"@, o.near, "node-meta"@);
    lemma_assoc_opt("tag"@, o.tag, "node-meta"@);
    lemma_assoc_opt("node-meta"@, o.node_meta, "node-meta"@);
    lemma_assoc_opt("passing"@, spec_bool_param(o.passing), "node-meta"@);
    lemma_assoc_opt("dc"@, spec_effective_dc(o.dc, None), "passing"@);
    lemma_assoc_opt("near"@, o.near, "passing"@);
    lemma_assoc_opt("tag"@, o.tag, "passing"@);
    lemma_assoc_opt("node-meta"@, o.node_meta, "passing"@);
    lemma_assoc_opt("passing"@, spec_bool_param(o.passing), "passing"@);
    assert(spec_assoc(ps, "dc"@) == o.dc);
    assert(spec_assoc(ps, "near"@) == o.near);
    assert(spec_assoc(ps, "tag"@) == o.tag);
    assert(spec_assoc(ps, "node-meta"@) == o.node_meta);
    assert(spec_assoc(ps, "passing"@) == spec_bool_param(o.passing));
    match o.passing {
        Some(b) => {
            assert(parse_bool_spec(spec_bool_str(b)) == Some(b));
        },
        None => {},
    }
}

/// Resolve one lookup across the five concatenated segments.
proof fn lemma_assoc_keys(
    s1: Seq<(Seq<char>, Seq<char>)>,
    s2: Seq<(Seq<char>, Seq<char>)>,
    s3: Seq<(Seq<char>, Seq<char>)>,
    s4: Seq<(Seq<char>, Seq<char>)>,
    s5: Seq<(Seq<char>, Seq<char>)>,
    key: Seq<char>,
)
    ensures
        spec_assoc(s1 + s2 + s3 + s4 + s5, key) == if spec_assoc(s1, key) is Some {
            spec_assoc(s1, key)
        } else if spec_assoc(s2, key) is Some {
            spec_assoc(s2, key)
        } else if spec_assoc(s3, key) is Some {
            spec_assoc(s3, key)
        } else if spec_assoc(s4, key) is Some {
            spec_assoc(s4, key)
        } else {
            spec_assoc(s5, key)
        },
{
    lemma_assoc_concat(s1 + s2 + s3 + s4, s5, key);
    lemma_assoc_concat(s1 + s2 + s3, s4, key);
    lemma_assoc_concat(s1 + s2, s3, key);
    lemma_assoc_concat(s1, s2, key);
}

} // verus!
