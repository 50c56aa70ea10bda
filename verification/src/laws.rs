//! Properties of the relay pipeline that hold for all inputs, stated once
//! and proved from the contracts of the modules around them.

use vstd::prelude::*;
use crate::bytes::dec_digits;
use crate::bytes::lemma_dec_digits_injective;
use crate::bytes::lemma_append_same_suffix;
use crate::relay::lit_wrong_prefix;
use crate::relay::lit_upstream_error_prefix;
use crate::relay::spec_failure_body;
use crate::relay::spec_disposition;
use crate::relay::spec_filename;
use crate::relay::RelayErrorS;

verus! {

/// An upstream application error is never thrown away: the failure body
/// shown to the caller ends with the upstream message verbatim.
pub proof fn lemma_upstream_message_preserved(code: Seq<u8>, message: Seq<u8>)
    ensures
        ({
            let body = spec_failure_body(RelayErrorS::Upstream { code, message });
            &&& body.len() >= message.len()
            &&& body.subrange(body.len() - message.len(), body.len() as int) == message
        }),
{
    let body = spec_failure_body(RelayErrorS::Upstream { code, message });
    assert(body == lit_wrong_prefix() + (lit_upstream_error_prefix() + message));
    assert(body.subrange(body.len() - message.len(), body.len() as int) =~= message);
}

/// A download failure's body is the fixed prefix and the transport detail,
/// nothing else: no downloaded bytes ever appear in a failure body.
pub proof fn lemma_download_failure_body(detail: Seq<u8>)
    ensures
        spec_failure_body(RelayErrorS::Download(detail)) == lit_wrong_prefix() + detail,
{
}

/// A generated filename always ends with a period and the media subtype,
/// whatever the clock says.
pub proof fn lemma_filename_ends_with_subtype(now: u64, sub: Seq<u8>)
    ensures
        ({
            let name = spec_filename(now, sub);
            &&& name.len() > sub.len()
            &&& name.subrange(name.len() - sub.len(), name.len() as int) == sub
            &&& name[name.len() - sub.len() - 1] == 0x2eu8
        }),
{
    crate::bytes::lemma_dec_digits_len(now as nat);
    let name = spec_filename(now, sub);
    assert(name.subrange(name.len() - sub.len(), name.len() as int) =~= sub);
}

/// Two relays of identical inputs at different moments name different
/// files: the filename, and with it the disposition header, changes with
/// the clock even when everything else is equal.
pub proof fn lemma_distinct_filenames(sub: Seq<u8>, n1: u64, n2: u64)
    requires
        n1 != n2,
    ensures
        spec_filename(n1, sub) != spec_filename(n2, sub),
        spec_disposition(n1, sub) != spec_disposition(n2, sub),
{
    lemma_dec_digits_injective(n1 as nat, n2 as nat);
    let t = seq![0x2eu8] + sub;
    assert(spec_filename(n1, sub) =~= dec_digits(n1 as nat) + t);
    assert(spec_filename(n2, sub) =~= dec_digits(n2 as nat) + t);
    lemma_append_same_suffix(dec_digits(n1 as nat), dec_digits(n2 as nat), t);
    if spec_disposition(n1, sub) == spec_disposition(n2, sub) {
        let p = lit_attachment_prefix_len();
        assert(spec_filename(n1, sub) =~= spec_disposition(n1, sub).subrange(
            p,
            spec_disposition(n1, sub).len() as int,
        ));
        assert(spec_filename(n2, sub) =~= spec_disposition(n2, sub).subrange(
            p,
            spec_disposition(n2, sub).len() as int,
        ));
        assert(false);
    }
}

/// Length of the fixed disposition prefix.
pub open spec fn lit_attachment_prefix_len() -> int {
    crate::relay::lit_attachment_prefix().len() as int
}

} // verus!
