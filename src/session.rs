use vstd::prelude::*;
use crate::codec::{
    compact_text, credential_from_helper, decode_credential, decoded, encode_compact,
    encode_pretty, from_helper, pretty_text,
};
use crate::credential::{CredentialError, CredentialView, ErrorView, ExecCredential};
use crate::json::is_json;
use crate::validity::{is_token_valid_at, validity, Instant};

verus! {

/// What the caller must do next in a run.
#[derive(Clone, Debug, PartialEq, Eq)]
pub enum Action {
    /// Run the authentication helper and report its two streams.
    RunHelper,
    /// Write `cache_text` to the cache file, report how that went, and print
    /// `output` once it has gone well.
    Save { cache_text: String, output: String },
    /// Print the text and end the run successfully.
    Emit(String),
    /// End the run with this error.
    Fail(CredentialError),
}

/// An action, over the texts it carries.
pub enum ActionView {
    RunHelper,
    Save { cache_text: Seq<char>, output: Seq<char> },
    Emit(Seq<char>),
    Fail(ErrorView),
}

impl View for Action {
    type V = ActionView;

    open spec fn view(&self) -> ActionView {
        match self {
            Action::RunHelper => ActionView::RunHelper,
            Action::Save { cache_text, output } => ActionView::Save {
                cache_text: cache_text@,
                output: output@,
            },
            Action::Emit(s) => ActionView::Emit(s@),
            Action::Fail(e) => ActionView::Fail(e@),
        }
    }
}

/// The text of an optional string slice.
pub open spec fn text_of(contents: Option<&str>) -> Option<Seq<char>> {
    match contents {
        Some(s) => Some(s@),
        None => None,
    }
}

/// The text of an optional string.
pub open spec fn reason_of(failure: Option<String>) -> Option<Seq<char>> {
    match failure {
        Some(s) => Some(s@),
        None => None,
    }
}

/// The credential that the cache file's contents give: none without a file.
pub open spec fn loaded(contents: Option<Seq<char>>) -> Result<Option<CredentialView>, ErrorView> {
    match contents {
        None => Ok(None),
        Some(text) => match decoded(text) {
            Ok(c) => Ok(Some(c)),
            Err(e) => Err(e),
        },
    }
}

/// What follows once the cache file has been looked for at `now`: a valid
/// cached credential is printed as it is; an expired one, or none, calls for
/// the helper; a corrupt cache or timestamp ends the run.
pub open spec fn after_cache_loaded(contents: Option<Seq<char>>, now: Instant) -> ActionView {
    match loaded(contents) {
        Err(e) => ActionView::Fail(e),
        Ok(None) => ActionView::RunHelper,
        Ok(Some(c)) => match validity(c.expiration_timestamp, now) {
            Err(e) => ActionView::Fail(e),
            Ok(true) => ActionView::Emit(pretty_text(c)),
            Ok(false) => ActionView::RunHelper,
        },
    }
}

/// What follows once the helper has run: a fresh credential is saved in the
/// compact form and then printed in the pretty form.
pub open spec fn after_helper(stdout: Seq<char>, stderr: Seq<char>) -> ActionView {
    match from_helper(stdout, stderr) {
        Err(e) => ActionView::Fail(e),
        Ok(c) => ActionView::Save { cache_text: compact_text(c), output: pretty_text(c) },
    }
}

/// What follows once the cache file has been written, or has failed to be.
pub open spec fn after_cache_written(output: Seq<char>, failure: Option<Seq<char>>) -> ActionView {
    match failure {
        None => ActionView::Emit(output),
        Some(reason) => ActionView::Fail(ErrorView::Io(reason)),
    }
}

/// Reads the cache file's contents, if there is a file, into a credential.
pub fn get_cached_token(contents: Option<&str>) -> (r: Result<Option<ExecCredential>, CredentialError>)
    ensures
        loaded(text_of(contents)) == match r {
            Ok(Some(c)) => Ok(Some(c@)),
            Ok(None) => Ok(None),
            Err(e) => Err::<Option<CredentialView>, ErrorView>(e@),
        },
{
    match contents {
        None => Ok(None),
        Some(text) => {
            let c = decode_credential(text)?;
            Ok(Some(c))
        },
    }
}

/// Decides the first step of a run from the cache file's contents, if there
/// is a file, and the time now.
pub fn on_cache_loaded(contents: Option<&str>, now: Instant) -> (r: Action)
    ensures
        r@ == after_cache_loaded(text_of(contents), now),
{
    let cached = match get_cached_token(contents) {
        Ok(c) => c,
        Err(e) => return Action::Fail(e),
    };
    match cached {
        None => Action::RunHelper,
        Some(c) => match is_token_valid_at(&c, now) {
            Err(e) => Action::Fail(e),
            Ok(true) => Action::Emit(encode_pretty(&c)),
            Ok(false) => Action::RunHelper,
        },
    }
}

/// Decides the step after the authentication helper has run, from its
/// standard output and its error stream.
pub fn on_helper_finished(stdout: &str, stderr: &str) -> (r: Action)
    ensures
        r@ == after_helper(stdout@, stderr@),
{
    match credential_from_helper(stdout, stderr) {
        Err(e) => Action::Fail(e),
        Ok(c) => Action::Save { cache_text: encode_compact(&c), output: encode_pretty(&c) },
    }
}

/// Decides the step after the cache file was written: `failure` is the reason
/// the write failed, if it did.
pub fn on_cache_written(output: String, failure: Option<String>) -> (r: Action)
    ensures
        r@ == after_cache_written(output@, reason_of(failure)),
{
    match failure {
        None => Action::Emit(output),
        Some(reason) => Action::Fail(CredentialError::Io(reason)),
    }
}

/// A cached credential that parses and is still valid at `now` is printed as
/// it is, in the pretty form, and the helper is not run.
pub proof fn lemma_valid_cache_is_reused(text: Seq<char>, now: Instant)
    requires
        decoded(text) is Ok,
        validity(decoded(text)->Ok_0.expiration_timestamp, now) == Ok::<bool, ErrorView>(true),
    ensures
        after_cache_loaded(Some(text), now) == ActionView::Emit(pretty_text(decoded(text)->Ok_0)),
{
}

/// After a refresh, the text saved to the cache and the text printed are the
/// compact and the pretty form of one and the same fresh credential.
pub proof fn lemma_refresh_saves_what_it_prints(stdout: Seq<char>, stderr: Seq<char>)
    requires
        from_helper(stdout, stderr) is Ok,
    ensures
        ({
            let c = from_helper(stdout, stderr)->Ok_0;
            after_helper(stdout, stderr) == ActionView::Save {
                cache_text: compact_text(c),
                output: pretty_text(c),
            } && after_cache_written(pretty_text(c), None) == ActionView::Emit(pretty_text(c))
        }),
{
}

/// A cache file that is not JSON ends the run with a corrupt-cache error; the
/// helper is not run in its place.
pub proof fn lemma_corrupt_cache_is_fatal(text: Seq<char>, now: Instant)
    requires
        !is_json(text),
    ensures
        after_cache_loaded(Some(text), now) == ActionView::Fail(ErrorView::MalformedCache(Seq::empty())),
{
}

/// Any text on the helper's error stream ends the run with that text, whatever
/// the standard output holds: nothing is saved or printed.
pub proof fn lemma_helper_error_stream_is_fatal(stdout: Seq<char>, stderr: Seq<char>)
    requires
        stderr.len() > 0,
    ensures
        after_helper(stdout, stderr) == ActionView::Fail(ErrorView::AuthHelper(stderr)),
{
}

/// Without a cache file the helper runs, and it runs once: what follows it is
/// never another run of the helper, and a fresh credential is saved and then
/// printed in the same form as it was saved.
pub proof fn lemma_first_run(now: Instant, stdout: Seq<char>, stderr: Seq<char>)
    ensures
        after_cache_loaded(None, now) == ActionView::RunHelper,
        !(after_helper(stdout, stderr) is RunHelper),
        from_helper(stdout, stderr) matches Ok(c) ==> after_helper(stdout, stderr)
            == (ActionView::Save { cache_text: compact_text(c), output: pretty_text(c) }),
        (forall|output: Seq<char>, failure: Option<Seq<char>>|
            !(#[trigger] after_cache_written(output, failure) is RunHelper)),
{
}

} // verus!
