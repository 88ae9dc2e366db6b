//! A model of the single system clipboard, as the extraction protocol sees
//! it.
//!
//! The clipboard either holds a plain-text payload or is empty, and it may be
//! held by another process for the duration of an interception, in which case
//! every operation on it fails. The extractor is verified against this model;
//! the unverified driver performs the same operations against the real
//! clipboard, mirroring these contracts.

use vstd::prelude::*;
use crate::errors::ClipboardError;

verus! {

/// The system clipboard: an optional textual payload, and whether another
/// process holds the clipboard open so that it cannot be acquired.
pub struct Clipboard {
    content: Option<String>,
    held: bool,
}

impl Clipboard {
    /// The textual payload, or nothing when the clipboard is empty.
    pub closed spec fn text(&self) -> Option<Seq<char>> {
        match self.content {
            Some(s) => Some(s@),
            None => None,
        }
    }

    /// Whether another process holds the clipboard, making it inaccessible.
    pub closed spec fn is_held(&self) -> bool {
        self.held
    }

    /// An empty, accessible clipboard.
    pub fn empty() -> (c: Clipboard)
        ensures
            c.text() is None,
            !c.is_held(),
    {
        Clipboard { content: None, held: false }
    }

    /// An accessible clipboard holding `s`.
    pub fn with_text(s: String) -> (c: Clipboard)
        ensures
            c.text() == Some(s@),
            !c.is_held(),
    {
        Clipboard { content: Some(s), held: false }
    }

    /// A clipboard held open by another process; its content, if any, cannot
    /// be read or replaced until the holder lets go.
    pub fn held_elsewhere(content: Option<String>) -> (c: Clipboard)
        ensures
            c.is_held(),
            content matches Some(s) ==> c.text() == Some(s@),
            content is None ==> c.text() is None,
    {
        Clipboard { content, held: true }
    }

    /// Read the current plain-text content. Absence of text and failure to
    /// acquire the clipboard both read as "no content": callers treat
    /// absence as "no text available", not as an error.
    pub fn read_text(&self) -> (r: Option<String>)
        ensures
            r is Some <==> (!self.is_held() && self.text() is Some),
            r matches Some(t) ==> self.text() == Some(t@),
    {
        if self.held {
            return None;
        }
        match &self.content {
            Some(s) => Some(s.clone()),
            None => None,
        }
    }

    /// Replace the content with `s`. Fails without effect when the
    /// clipboard cannot be acquired.
    pub fn write_text(&mut self, s: &str) -> (r: Result<(), ClipboardError>)
        ensures
            final(self).is_held() == old(self).is_held(),
            old(self).is_held() ==> r == Err::<(), ClipboardError>(ClipboardError::AccessDenied)
                && final(self).text() == old(self).text(),
            !old(self).is_held() ==> r is Ok && final(self).text() == Some(s@),
    {
        if self.held {
            return Err(ClipboardError::AccessDenied);
        }
        self.content = Some(s.to_owned());
        Ok(())
    }

    /// Empty the clipboard, so that a stale value can never be misread as
    /// freshly copied text. Fails without effect when the clipboard cannot
    /// be acquired.
    pub fn clear(&mut self) -> (r: Result<(), ClipboardError>)
        ensures
            final(self).is_held() == old(self).is_held(),
            old(self).is_held() ==> r == Err::<(), ClipboardError>(ClipboardError::AccessDenied)
                && final(self).text() == old(self).text(),
            !old(self).is_held() ==> r is Ok && final(self).text() is None,
    {
        if self.held {
            return Err(ClipboardError::AccessDenied);
        }
        self.content = None;
        Ok(())
    }
}

} // verus!
