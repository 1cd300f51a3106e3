//! The blocking-query engine: one request/response cycle of the long-poll
//! "wait for change since index N" protocol.
//!
//! Building the parameters (always `index`, optionally `wait` and filters)
//! and interpreting the response (extract the consistency-index header,
//! then decode the body) are verified here; the caller performs the GET in
//! between and loops, feeding each returned index into the next call.

use vstd::prelude::*;
use vstd::string::StringExecFns;
use vstd::utf8::encode_utf8;
use crate::error::{decode_error, spec_kept_bytes, Error};
use crate::health::{
    decode_service_entries, spec_entries_of, ServiceEntry, ServiceEntryV, ServiceOptions,
};
use crate::params::{opt_param, push_opt_param, spec_bool_param, spec_effective_dc};
use crate::strutil::{
    bool_to_str, dec_digits, eq_ignore_ascii_case, parse_u64, parse_u64_spec,
    str_eq_ignore_ascii_case, u64_to_dec,
};
use crate::Client;

verus! {

/// Per-call choices of a blocking query: how long the server may hold the
/// request open, and the endpoint's own filter options.
#[derive(Clone, Debug)]
pub struct BlockingOptions<T> {
    /// Wait duration in whole seconds; sent as `<seconds>s`.
    pub wait: Option<u64>,
    pub options: Option<T>,
}

/// What one blocking call hands back: the server's new consistency index,
/// to be fed into the next call, and the decoded body.
#[derive(Clone, Debug)]
pub struct BlockingResponse<T> {
    pub index: u64,
    pub body: T,
}

/// The first value of the consistency-index header, compared by name up to
/// ASCII case as the protocol requires.
pub open spec fn spec_header_index_value(h: Seq<(Seq<char>, Seq<char>)>) -> Option<Seq<char>>
    decreases h.len(),
{
    if h.len() == 0 {
        None
    } else if eq_ignore_ascii_case(h[0].0, "X-Consul-Index"@) {
        Some(h[0].1)
    } else {
        spec_header_index_value(h.skip(1))
    }
}

/// Find the consistency-index header among response headers.
pub fn header_index_value<'a>(headers: &'a Vec<(String, String)>) -> (r: Option<&'a String>)
    ensures
        match r {
            Some(v) => spec_header_index_value(headers.deep_view()) == Some(v@),
            None => spec_header_index_value(headers.deep_view()) is None,
        },
{
    let ghost full = headers.deep_view();
    proof {
        assert(full.skip(0) =~= full);
    }
    let mut i: usize = 0;
    while i < headers.len()
        invariant
            0 <= i <= headers.len(),
            full == headers.deep_view(),
            full.len() == headers@.len(),
            spec_header_index_value(full) == spec_header_index_value(full.skip(i as int)),
        decreases headers.len() - i,
    {
        if str_eq_ignore_ascii_case(headers[i].0.as_str(), "X-Consul-Index") {
            proof {
                assert(full.skip(i as int)[0] == full[i as int]);
            }
            return Some(&headers[i].1);
        }
        proof {
            assert(full.skip(i as int)[0] == full[i as int]);
            assert(full.skip(i as int).skip(1) =~= full.skip(i + 1));
        }
        i = i + 1;
    }
    proof {
        assert(full.skip(i as int) =~= Seq::<(Seq<char>, Seq<char>)>::empty());
    }
    None
}

/// The ghost outcome of interpreting one blocking response.
pub enum BlockingOutcome {
    /// The server omitted the consistency-index header: a protocol
    /// violation, surfaced rather than masked.
    MissingIndex,
    /// The header was present but not a decimal unsigned integer.
    BadIndex(Seq<char>),
    /// The index was extracted but the body failed to decode.
    BadBody(u64),
    /// The new index and the decoded service entries.
    Done(u64, Seq<ServiceEntryV>),
}

pub open spec fn spec_blocking_service_outcome(
    h: Seq<(Seq<char>, Seq<char>)>,
    b: Seq<u8>,
) -> BlockingOutcome {
    match spec_header_index_value(h) {
        None => BlockingOutcome::MissingIndex,
        Some(v) => match parse_u64_spec(v) {
            None => BlockingOutcome::BadIndex(v),
            Some(ix) => match spec_entries_of(b) {
                Some(es) => BlockingOutcome::Done(ix, es),
                None => BlockingOutcome::BadBody(ix),
            },
        },
    }
}

/// Interpret one blocking response to a service-health query: extract the
/// consistency index from the headers, then decode the body. The header is
/// read before the body, so a missing index fails before any decoding.
pub fn blocking_service_response(headers: &Vec<(String, String)>, body: &[u8]) -> (r: Result<
    BlockingResponse<Vec<ServiceEntry>>,
    Error,
>)
    ensures
        match spec_blocking_service_outcome(headers.deep_view(), body@) {
            BlockingOutcome::MissingIndex => r matches Err(e) && e is MissingIndex,
            BlockingOutcome::BadIndex(v) => r matches Err(Error::Decode { data, .. }) && data@
                == spec_kept_bytes(encode_utf8(v)),
            BlockingOutcome::BadBody(ix) => r matches Err(e) && e is Decode,
            BlockingOutcome::Done(ix, es) => r matches Ok(b) && b.index == ix && b.body.deep_view()
                == es,
        },
{
    let idx_str = match header_index_value(headers) {
        Some(v) => v,
        None => {
            return Err(Error::MissingIndex);
        },
    };
    let index = match parse_u64(idx_str.as_str()) {
        Some(i) => i,
        None => {
            return Err(
                decode_error(
                    idx_str.as_str().as_bytes(),
                    String::from_str("index header is not a decimal integer"),
                ),
            );
        },
    };
    match decode_service_entries(body) {
        Ok(entries) => Ok(BlockingResponse { index, body: entries }),
        Err(e) => Err(e),
    }
}

/// A missing index header fails the call the same way whatever the body
/// holds: the outcome never reaches decoding.
pub proof fn lemma_missing_index_regardless_of_body(
    h: Seq<(Seq<char>, Seq<char>)>,
    b1: Seq<u8>,
    b2: Seq<u8>,
)
    requires
        spec_header_index_value(h) is None,
    ensures
        spec_blocking_service_outcome(h, b1) == BlockingOutcome::MissingIndex,
        spec_blocking_service_outcome(h, b1) == spec_blocking_service_outcome(h, b2),
{
}

/// Index regression is tolerated: the outcome carries the header's value
/// as-is, even when it is numerically below the index the caller last held;
/// a lower index is never an error by itself.
pub proof fn lemma_index_regression_accepted(
    h: Seq<(Seq<char>, Seq<char>)>,
    b: Seq<u8>,
    prior: u64,
    v: Seq<char>,
    ix: u64,
)
    requires
        spec_header_index_value(h) == Some(v),
        parse_u64_spec(v) == Some(ix),
        ix < prior,
    ensures
        !(spec_blocking_service_outcome(h, b) is MissingIndex),
        !(spec_blocking_service_outcome(h, b) is BadIndex),
        spec_blocking_service_outcome(h, b) matches BlockingOutcome::Done(i, es) ==> i == ix,
        spec_blocking_service_outcome(h, b) matches BlockingOutcome::BadBody(i) ==> i == ix,
{
}

/// What the parameters of a blocking service query hold: always the caller's
/// last-known index, then the effective datacenter, the wait duration as
/// `<seconds>s`, and the service filters, each only when set.
pub open spec fn spec_blocking_service_params(
    index: u64,
    wait: Option<u64>,
    o: Option<crate::health::ServiceOptionsV>,
    default_dc: Option<Seq<char>>,
) -> Seq<(Seq<char>, Seq<char>)> {
    let ov = match o {
        Some(x) => x,
        None => crate::health::ServiceOptionsV {
            dc: None,
            near: None,
            tag: None,
            node_meta: None,
            passing: None,
        },
    };
    seq![("index"@, dec_digits(index as nat))] + opt_param(
        "dc"@,
        spec_effective_dc(ov.dc, default_dc),
    ) + opt_param("wait"@, spec_wait_param(wait)) + opt_param("near"@, ov.near) + opt_param(
        "tag"@,
        ov.tag,
    ) + opt_param("node-meta"@, ov.node_meta) + opt_param("passing"@, spec_bool_param(ov.passing))
}

/// A wait duration serializes as whole seconds with a literal `s` suffix.
pub open spec fn spec_wait_param(wait: Option<u64>) -> Option<Seq<char>> {
    match wait {
        Some(secs) => Some(dec_digits(secs as nat) + "s"@),
        None => None,
    }
}

impl Client {
    /// Parameters for one blocking service-health query.
    pub fn service_blocking_params(
        &self,
        index: u64,
        options: Option<&BlockingOptions<&ServiceOptions>>,
    ) -> (r: Vec<(String, String)>)
        ensures
            r.deep_view() == spec_blocking_service_params(
                index,
                spec_blocking_wait(options),
                spec_blocking_filters(options),
                self.config.datacenter.deep_view(),
            ),
    {
        let mut params: Vec<(String, String)> = Vec::new();
        params.push(("index".to_owned(), u64_to_dec(index)));
        proof {
            assert(params.deep_view() =~= seq![("index"@, dec_digits(index as nat))]);
        }
        let call_dc = match options {
            Some(b) => match b.options {
                Some(o) => match &o.dc {
                    Some(d) => Some(d),
                    None => None,
                },
                None => None,
            },
            None => None,
        };
        let dc = match call_dc {
            Some(d) => Some(d),
            None => match &self.config.datacenter {
                Some(d) => Some(d),
                None => None,
            },
        };
        push_opt_param(&mut params, "dc", dc);
        let ghost before_wait = params.deep_view();
        match options {
            Some(b) => match b.wait {
                Some(secs) => {
                    let mut w = u64_to_dec(secs);
                    w.append("s");
                    params.push(("wait".to_owned(), w));
                    proof {
                        assert(params.deep_view() =~= before_wait + opt_param(
                            "wait"@,
                            spec_wait_param(spec_blocking_wait(options)),
                        ));
                    }
                },
                None => {
                    proof {
                        assert(params.deep_view() =~= before_wait + opt_param(
                            "wait"@,
                            spec_wait_param(spec_blocking_wait(options)),
                        ));
                    }
                },
            },
            None => {
                proof {
                    assert(params.deep_view() =~= before_wait + opt_param(
                        "wait"@,
                        spec_wait_param(spec_blocking_wait(options)),
                    ));
                }
            },
        }
        let near = match options {
            Some(b) => match b.options {
                Some(o) => match &o.near {
                    Some(v) => Some(v),
                    None => None,
                },
                None => None,
            },
            None => None,
        };
        push_opt_param(&mut params, "near", near);
        let tag = match options {
            Some(b) => match b.options {
                Some(o) => match &o.tag {
                    Some(v) => Some(v),
                    None => None,
                },
                None => None,
            },
            None => None,
        };
        push_opt_param(&mut params, "tag", tag);
        let node_meta = match options {
            Some(b) => match b.options {
                Some(o) => match &o.node_meta {
                    Some(v) => Some(v),
                    None => None,
                },
                None => None,
            },
            None => None,
        };
        push_opt_param(&mut params, "node-meta", node_meta);
        let ghost before_passing = params.deep_view();
        let ghost passing_seg = opt_param(
            "passing"@,
            spec_bool_param(
                match spec_blocking_filters(options) {
                    Some(f) => f.passing,
                    None => None,
                },
            ),
        );
        match options {
            Some(b) => match b.options {
                Some(o) => match o.passing {
                    Some(x) => {
                        params.push(("passing".to_owned(), bool_to_str(x).to_owned()));
                        proof {
                            assert(params.deep_view() =~= before_passing + passing_seg);
                        }
                    },
                    None => {
                        proof {
                            assert(params.deep_view() =~= before_passing + passing_seg);
                        }
                    },
                },
                None => {
                    proof {
                        assert(params.deep_view() =~= before_passing + passing_seg);
                    }
                },
            },
            None => {
                proof {
                    assert(params.deep_view() =~= before_passing + passing_seg);
                }
            },
        }
        proof {
            assert(params.deep_view() =~= spec_blocking_service_params(
                index,
                spec_blocking_wait(options),
                spec_blocking_filters(options),
                self.config.datacenter.deep_view(),
            ));
        }
        params
    }
}

/// The wait duration a caller asked for, if any.
pub open spec fn spec_blocking_wait(
    options: Option<&BlockingOptions<&ServiceOptions>>,
) -> Option<u64> {
    match options {
        Some(b) => b.wait,
        None => None,
    }
}

/// The filter options a caller attached, if any.
pub open spec fn spec_blocking_filters(
    options: Option<&BlockingOptions<&ServiceOptions>>,
) -> Option<crate::health::ServiceOptionsV> {
    match options {
        Some(b) => match b.options {
            Some(o) => Some(o@),
            None => None,
        },
        None => None,
    }
}

} // verus!
