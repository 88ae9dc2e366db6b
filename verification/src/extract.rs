//! The selection extractor: the snapshot / clear / simulate / read / restore
//! protocol over the clipboard model.
//!
//! The copy command is a nudge to whatever application owns keyboard focus;
//! what that application does in response is outside the extractor's control
//! and enters here as a [`CopyOutcome`]. The extractor is verified for every
//! outcome: the clipboard is never left cleared when it held text before, and
//! the returned text is exactly what the copy produced.

use vstd::prelude::*;
use crate::clipboard::Clipboard;
use crate::errors::ExtractionError;

verus! {

/// What the simulated copy command did to the clipboard, observed after the
/// settle delay: the injection was rejected by the platform, the focused
/// application wrote nothing (no selection, or a slow application), or it
/// wrote its current selection.
#[derive(Clone, Debug)]
pub enum CopyOutcome {
    /// The platform refused the synthetic key sequence.
    Rejected,
    /// No application wrote to the clipboard in response to the chord.
    NoCopy,
    /// The focused application copied this text.
    Copied(String),
}

/// The text a clipboard state reads as: its payload, or empty when it holds
/// none.
pub open spec fn text_or_empty(o: Option<Seq<char>>) -> Seq<char> {
    match o {
        Some(s) => s,
        None => Seq::empty(),
    }
}

/// The text a copy outcome contributes: what was copied, or empty.
pub open spec fn copied_text(copy: CopyOutcome) -> Seq<char> {
    match copy {
        CopyOutcome::Copied(w) => w@,
        _ => Seq::empty(),
    }
}

/// What the restoration step leaves when the copy contributed nothing new:
/// the snapshot written back if it held text, an empty clipboard otherwise.
pub open spec fn restored(prior: Option<Seq<char>>) -> Option<Seq<char>> {
    if text_or_empty(prior).len() > 0 {
        Some(text_or_empty(prior))
    } else {
        None
    }
}

/// The clipboard text after a full extraction over an accessible clipboard
/// that held `prior`, under copy outcome `copy`. A non-empty snapshot that
/// differs from the fresh value is written back; a snapshot equal to the
/// fresh value is left alone to avoid a needless clipboard-change
/// notification.
pub open spec fn extract_final(prior: Option<Seq<char>>, copy: CopyOutcome) -> Option<
    Seq<char>,
> {
    let saved = text_or_empty(prior);
    match copy {
        CopyOutcome::Copied(w) => if saved.len() > 0 && saved != w@ {
            Some(saved)
        } else {
            Some(w@)
        },
        _ => restored(prior),
    }
}

/// Run the extraction protocol against the clipboard, in strict order:
/// snapshot the current text, clear, let the simulated copy take effect,
/// read the fresh value, and restore the snapshot when it was non-empty and
/// differs from the fresh value. An empty fresh value means "no selection
/// was present" and is a success. A rejected injection propagates as a
/// simulation failure, after the snapshot has been restored; a clipboard
/// held by another process fails without disturbing its content.
pub fn extract_selected_text(cb: &mut Clipboard, copy: CopyOutcome) -> (r: Result<
    String,
    ExtractionError,
>)
    ensures
        final(cb).is_held() == old(cb).is_held(),
        old(cb).is_held() ==> (r matches Err(e) && e == ExtractionError::ClipboardUnavailable)
            && final(cb).text() == old(cb).text(),
        !old(cb).is_held() && copy is Rejected ==> (r matches Err(e) && e
            == ExtractionError::SimulationFailed) && final(cb).text() == restored(
            old(cb).text(),
        ),
        !old(cb).is_held() && !(copy is Rejected) ==> (r matches Ok(t) && t@ == copied_text(copy))
            && final(cb).text() == extract_final(old(cb).text(), copy),
{
    // Step 1: snapshot. Absence of prior content is a valid, empty snapshot.
    let saved: String = match cb.read_text() {
        Some(s) => s,
        None => String::new(),
    };

    // Step 2: clear, so a stale value can never pass for a fresh copy.
    match cb.clear() {
        Ok(_) => {},
        Err(_) => {
            // The clipboard could not be acquired; nothing was disturbed.
            return Err(ExtractionError::ClipboardUnavailable);
        },
    }

    // Step 3: the simulated copy takes effect (step 4, the settle delay,
    // has no counterpart in the model).
    match &copy {
        CopyOutcome::Rejected => {
            // Restore the snapshot before propagating the failure.
            if !saved.as_str().is_empty() {
                let _ = cb.write_text(saved.as_str());
            }
            return Err(ExtractionError::SimulationFailed);
        },
        CopyOutcome::NoCopy => {},
        CopyOutcome::Copied(w) => {
            // The focused application answers the chord with its selection.
            let _ = cb.write_text(w.as_str());
        },
    }

    // Step 5: read the fresh value; absence means "nothing selected".
    let selected: String = match cb.read_text() {
        Some(s) => s,
        None => String::new(),
    };

    // Step 6: restore the snapshot where the protocol calls for it.
    if should_restore(&saved, &selected) {
        let _ = cb.write_text(saved.as_str());
    }

    Ok(selected)
}

/// The restoration decision of the protocol's last step: the snapshot is
/// written back exactly when it is non-empty and differs from the freshly
/// read value. A snapshot equal to the fresh value is left alone, so other
/// applications see no needless clipboard-change notification.
pub fn should_restore(saved: &String, selected: &String) -> (r: bool)
    ensures
        r == (saved@.len() > 0 && saved@ != selected@),
{
    !saved.as_str().is_empty() && !(*saved == *selected)
}

/// Round trip: when the simulated copy yields nothing new — no application
/// wrote, or the focused application wrote back exactly the prior text —
/// the clipboard reads as the same text after the extraction as before it,
/// and a non-empty prior payload is present again verbatim.
pub proof fn lemma_restoration_round_trip(prior: Option<Seq<char>>, copy: CopyOutcome)
    requires
        copy is NoCopy || (copy matches CopyOutcome::Copied(w) && w@ == text_or_empty(prior)),
    ensures
        text_or_empty(extract_final(prior, copy)) == text_or_empty(prior),
        text_or_empty(prior).len() > 0 ==> extract_final(prior, copy) == Some(
            text_or_empty(prior),
        ),
{
}

/// New content is kept when there is nothing to put back: if the clipboard
/// read as empty before the call and the simulated copy produced `w`, the
/// clipboard ends holding `w` and the extraction reports `w`. (With a
/// non-empty prior text differing from `w`, the restoration step puts the
/// prior text back instead.)
pub proof fn lemma_new_content_kept(prior: Option<Seq<char>>, w: String)
    requires
        text_or_empty(prior).len() == 0,
    ensures
        extract_final(prior, CopyOutcome::Copied(w)) == Some(w@),
        copied_text(CopyOutcome::Copied(w)) == w@,
{
}

/// The clipboard is never abandoned cleared or partially written: whatever
/// the outcome of an extraction over an accessible clipboard, the text it
/// ends with is either the text it held before or the text the copy
/// produced.
pub proof fn lemma_never_abandoned(prior: Option<Seq<char>>, copy: CopyOutcome)
    ensures
        text_or_empty(extract_final(prior, copy)) == text_or_empty(prior) || text_or_empty(
            extract_final(prior, copy),
        ) == copied_text(copy),
{
}

} // verus!
