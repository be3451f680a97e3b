//! Header propagation policy: every upstream header is relayed except the
//! hop-by-hop ones (`Connection`, `Transfer-Encoding`, `Keep-Alive`), whose
//! names are matched case-insensitively.
use crate::bytestr::{bytes_eq, copy_bytes, lower, lower_bytes, str_bytes_vec};
use vstd::prelude::*;
use vstd::string::StringSliceAdditionalSpecFns;

verus! {

/// A header as the library sees it: name and value, as raw bytes.
pub type HeaderPair = (Vec<u8>, Vec<u8>);

/// The name/value views of a sequence of header pairs.
pub open spec fn header_views(hs: Seq<HeaderPair>) -> Seq<(Seq<u8>, Seq<u8>)> {
    hs.map_values(|h: HeaderPair| (h.0@, h.1@))
}

/// Is this (already lower-cased or mixed-case) name a hop-by-hop header?
pub open spec fn is_hop_by_hop(name: Seq<u8>) -> bool {
    lower(name) == "connection".spec_bytes() || lower(name) == "transfer-encoding".spec_bytes()
        || lower(name) == "keep-alive".spec_bytes()
}

/// The header sequence with every hop-by-hop header removed and nothing
/// else changed, in order.
pub open spec fn filtered_headers(hs: Seq<(Seq<u8>, Seq<u8>)>) -> Seq<(Seq<u8>, Seq<u8>)>
    decreases hs.len(),
{
    if hs.len() == 0 {
        hs
    } else if is_hop_by_hop(hs[0].0) {
        filtered_headers(hs.skip(1))
    } else {
        seq![hs[0]] + filtered_headers(hs.skip(1))
    }
}

/// No hop-by-hop header survives the filter.
pub proof fn lemma_filtered_headers_clean(hs: Seq<(Seq<u8>, Seq<u8>)>)
    ensures
        forall|i: int|
            0 <= i < filtered_headers(hs).len() ==> !is_hop_by_hop(
                #[trigger] filtered_headers(hs)[i].0,
            ),
    decreases hs.len(),
{
    if hs.len() != 0 {
        lemma_filtered_headers_clean(hs.skip(1));
        let f = filtered_headers(hs);
        let ft = filtered_headers(hs.skip(1));
        assert forall|i: int| 0 <= i < f.len() implies !is_hop_by_hop(#[trigger] f[i].0) by {
            if is_hop_by_hop(hs[0].0) {
                assert(f[i] == ft[i]);
            } else if i >= 1 {
                assert(f[i] == ft[i - 1]);
            }
        }
    }
}

/// Executable hop-by-hop check on a header name.
pub fn name_is_hop_by_hop(name: &Vec<u8>) -> (r: bool)
    ensures
        r == is_hop_by_hop(name@),
{
    let low = lower_bytes(name);
    let connection = str_bytes_vec("connection");
    if bytes_eq(&low, &connection) {
        return true;
    }
    let transfer_encoding = str_bytes_vec("transfer-encoding");
    if bytes_eq(&low, &transfer_encoding) {
        return true;
    }
    let keep_alive = str_bytes_vec("keep-alive");
    bytes_eq(&low, &keep_alive)
}

/// Copy the headers, dropping every hop-by-hop one.
pub fn filter_headers(headers: &Vec<HeaderPair>) -> (out: Vec<HeaderPair>)
    ensures
        header_views(out@) == filtered_headers(header_views(headers@)),
{
    let mut out: Vec<HeaderPair> = Vec::new();
    let mut i: usize = 0;
    let n: usize = headers.len();
    let ghost all = header_views(headers@);
    proof {
        assert(all.skip(0) =~= all);
        assert(header_views(out@) + filtered_headers(all.skip(0)) =~= filtered_headers(all));
    }
    while i < n
        invariant
            0 <= i <= n,
            n == headers@.len(),
            all == header_views(headers@),
            filtered_headers(all) == header_views(out@) + filtered_headers(all.skip(i as int)),
        decreases n - i,
    {
        let ghost rest = all.skip(i as int);
        let ghost out0 = header_views(out@);
        proof {
            assert(rest[0] == all[i as int]);
            assert(rest.skip(1) =~= all.skip(i + 1));
        }
        let name = &headers[i].0;
        if !name_is_hop_by_hop(name) {
            let pair = (copy_bytes(name), copy_bytes(&headers[i].1));
            out.push(pair);
            proof {
                assert(filtered_headers(rest) == seq![rest[0]] + filtered_headers(all.skip(i + 1)));
                assert(header_views(out@) =~= out0 + seq![rest[0]]);
            }
        } else {
            proof {
                assert(filtered_headers(rest) == filtered_headers(all.skip(i + 1)));
            }
        }
        i += 1;
    }
    proof {
        assert(all.skip(n as int) =~= Seq::<(Seq<u8>, Seq<u8>)>::empty());
        assert(header_views(out@) + filtered_headers(all.skip(n as int)) =~= header_views(out@));
    }
    out
}

} // verus!
