//! The connectivity probe reads the full standard output and standard error
//! captured from a one-shot test-connection invocation of the worker and
//! finds its verdict line.
//!
//! The probe is independent of the search run's single-flight guard and has
//! no cancellation path: the caller waits for full process exit and hands
//! the captured bytes here. The first stdout line carrying the `CONNECTED:`
//! prefix yields its trimmed remainder as the success message; when no such
//! line exists the probe fails with the captured standard-error text, or,
//! when that is empty, with a message embedding the full standard output
//! for diagnosis.

use vstd::prelude::*;

use crate::codec::{connected_prefix, payload_after};
use crate::errors::CoreError;
use crate::text::{
    append_bytes, slice_starts_with, split_lines, split_lines_spec, starts_with, trim_ascii,
    trim_spec,
};
use vstd::string::StrSliceExecFns;
use vstd::string::StringSliceAdditionalSpecFns;

verus! {

/// The trimmed remainder of the first line carrying the verdict prefix;
/// `None` when no line carries it.
pub open spec fn first_connected(lines: Seq<Seq<u8>>) -> Option<Seq<u8>>
    decreases lines.len(),
{
    if lines.len() == 0 {
        None
    } else if starts_with(lines[0], connected_prefix()) {
        Some(trim_spec(payload_after(lines[0], connected_prefix())))
    } else {
        first_connected(lines.drop_first())
    }
}

/// The probe's verdict in the captured standard output, line by line.
pub open spec fn probe_verdict(stdout: Seq<u8>) -> Option<Seq<u8>> {
    first_connected(split_lines_spec(stdout))
}

/// The diagnostic text of a failed probe: the captured standard error when
/// non-empty, else a message embedding the full captured standard output.
pub open spec fn failure_text(stdout: Seq<u8>, stderr: Seq<u8>) -> Seq<u8> {
    if stderr.len() > 0 {
        stderr
    } else {
        "connection failed, stdout: ".spec_bytes() + stdout
    }
}

/// Scans the captured output of a test-connection invocation. The first
/// stdout line with the verdict prefix yields its remainder, surrounding
/// whitespace trimmed; otherwise the probe fails with `ConnectionFailed`
/// carrying the diagnostic text.
pub fn probe_outcome(stdout: &[u8], stderr: &[u8]) -> (r: Result<Vec<u8>, CoreError>)
    ensures
        r is Ok <==> probe_verdict(stdout@) is Some,
        r matches Ok(m) ==> Some(m@) == probe_verdict(stdout@),
        r matches Err(e) ==> (e matches CoreError::ConnectionFailed { detail } && detail@
            == failure_text(stdout@, stderr@)),
{
    let lines = split_lines(stdout);
    let tag = "CONNECTED:".as_bytes_vec();
    let ghost ls = lines.deep_view();
    proof {
        assert(ls.subrange(0, ls.len() as int) =~= ls);
    }
    let mut i: usize = 0;
    while i < lines.len()
        invariant
            0 <= i <= ls.len(),
            ls == lines.deep_view(),
            ls == split_lines_spec(stdout@),
            tag@ == connected_prefix(),
            first_connected(ls) == first_connected(ls.subrange(i as int, ls.len() as int)),
        decreases ls.len() - i,
    {
        proof {
            assert(ls.subrange(i as int, ls.len() as int).drop_first() =~= ls.subrange(
                i + 1 as int,
                ls.len() as int,
            ));
            assert(lines@[i as int]@ =~= ls[i as int]);
        }
        let line = lines[i].as_slice();
        if slice_starts_with(line, tag.as_slice()) {
            let m = trim_ascii(&line[tag.len()..line.len()]);
            proof {
                assert(line@.subrange(tag@.len() as int, line@.len() as int) == payload_after(
                    ls[i as int],
                    connected_prefix(),
                ));
            }
            return Ok(m);
        }
        i += 1;
    }
    proof {
        assert(first_connected(ls.subrange(ls.len() as int, ls.len() as int)) is None);
    }
    let mut detail: Vec<u8> = Vec::new();
    if stderr.len() > 0 {
        append_bytes(&mut detail, stderr);
        proof {
            assert(detail@ =~= failure_text(stdout@, stderr@));
        }
    } else {
        let mut prefix = "connection failed, stdout: ".as_bytes_vec();
        append_bytes(&mut prefix, stdout);
        detail = prefix;
    }
    Err(CoreError::ConnectionFailed { detail })
}

} // verus!
