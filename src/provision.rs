//! Making sure the capture tool is on disk, downloading it only when absent.
use vstd::prelude::*;
use vstd::string::*;

verus! {

/// Whether an HTTP status code is a success (the 2xx class).
pub open spec fn is_success_code(code: u16) -> bool {
    200 <= code <= 299
}

/// Whether an HTTP status code is a success.
pub fn is_success_status(code: u16) -> (r: bool)
    ensures
        r == is_success_code(code),
{
    200 <= code && code <= 299
}

/// The index just after the last `/` in `s`, or zero.
pub open spec fn segment_start(s: Seq<char>) -> int
    decreases s.len(),
{
    if s.len() == 0 {
        0
    } else if s.last() == '/' {
        s.len() as int
    } else {
        segment_start(s.drop_last())
    }
}

/// The last `/`-separated segment of a locator.
pub open spec fn last_segment(s: Seq<char>) -> Seq<char> {
    s.subrange(segment_start(s), s.len() as int)
}

/// The file name under which the tool fetched from `locator` is kept: the
/// last segment of the locator.
pub fn tool_file_name(locator: &str) -> (r: String)
    ensures
        r@ == last_segment(locator@),
{
    let n = locator.unicode_len();
    let mut i: usize = n;
    assert(locator@.subrange(0, n as int) =~= locator@);
    while i > 0
        invariant
            i <= n == locator@.len(),
            segment_start(locator@) == segment_start(locator@.subrange(0, i as int)),
        decreases i,
    {
        proof {
            assert(locator@.subrange(0, i as int).drop_last() =~= locator@.subrange(0, i - 1));
        }
        if locator.get_char(i - 1) == '/' {
            return String::from_str(locator.substring_char(i, n));
        }
        i = i - 1;
    }
    String::from_str(locator.substring_char(0, n))
}

/// What one call of the provisioner does.
#[derive(PartialEq, Eq, Structural, Clone, Copy, Debug)]
pub enum ProvisionAction {
    /// The destination is there: nothing is fetched.
    Skip,
    /// The destination is missing: fetch the tool.
    Download,
}

/// The provisioner fetches only where the destination is missing.
pub open spec fn provision_action_of(dest_present: bool) -> ProvisionAction {
    if dest_present {
        ProvisionAction::Skip
    } else {
        ProvisionAction::Download
    }
}

/// What the provisioner does for a destination that is present or not.
pub fn provision_action(dest_present: bool) -> (r: ProvisionAction)
    ensures
        r == provision_action_of(dest_present),
{
    if dest_present {
        ProvisionAction::Skip
    } else {
        ProvisionAction::Download
    }
}

/// Why provisioning failed.
#[derive(PartialEq, Eq, Structural, Clone, Copy, Debug)]
pub enum ProvisionError {
    /// The remote answered with a status outside the 2xx class.
    Status { code: u16 },
    /// Writing the destination failed.
    Io,
    /// The transfer completed but wrote nothing.
    Empty,
}

/// The verdict of a download answered with `status`, of which `written`
/// bytes reached the destination, or none where the local write failed.
pub open spec fn download_verdict_of(status: u16, written: Option<u64>) -> Result<(), ProvisionError> {
    if !is_success_code(status) {
        Err(ProvisionError::Status { code: status })
    } else {
        match written {
            None => Err(ProvisionError::Io),
            Some(n) => if n == 0 {
                Err(ProvisionError::Empty)
            } else {
                Ok(())
            },
        }
    }
}

/// The verdict of a download.
pub fn download_verdict(status: u16, written: Option<u64>) -> (r: Result<(), ProvisionError>)
    ensures
        r == download_verdict_of(status, written),
{
    if !is_success_status(status) {
        Err(ProvisionError::Status { code: status })
    } else {
        match written {
            None => Err(ProvisionError::Io),
            Some(n) => if n == 0 {
                Err(ProvisionError::Empty)
            } else {
                Ok(())
            },
        }
    }
}

/// Whether the destination is present after one call of the provisioner:
/// it was before, or the call fetched it successfully.
pub open spec fn present_after(dest_present: bool, verdict: Result<(), ProvisionError>) -> bool {
    match provision_action_of(dest_present) {
        ProvisionAction::Skip => true,
        ProvisionAction::Download => verdict is Ok,
    }
}

/// Once the destination is present, a call of the provisioner fetches
/// nothing; and once a call has succeeded, whether by finding the
/// destination or by fetching it, the next call fetches nothing either.
pub proof fn law_provision_idempotent(
    dest_present: bool,
    status: u16,
    written: Option<u64>,
)
    ensures
        provision_action_of(true) == ProvisionAction::Skip,
        present_after(dest_present, download_verdict_of(status, written)) ==> provision_action_of(
            present_after(dest_present, download_verdict_of(status, written)),
        ) == ProvisionAction::Skip,
        dest_present ==> provision_action_of(
            present_after(dest_present, download_verdict_of(status, written)),
        ) == ProvisionAction::Skip,
{
}

} // verus!
