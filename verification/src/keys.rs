//! The API-key section: the status line, and the bookkeeping around a
//! store or a removal. A stored key is never shown back, in full or in
//! part, and the paste buffer never outlives a store attempt. The keychain
//! itself is reached by the glue, which hands the outcomes in here.

use vstd::prelude::*;
use crate::pages::{Confirm, Tone};
use crate::text::{push_str, trim, trim_str};

verus! {

/// What the keychain holds for an account.
pub enum KeyStatus {
    Stored,
    Missing,
    /// The keychain could not be read.
    Backend(String),
}

/// The tone of a key status.
pub open spec fn tone_of(status: KeyStatus) -> Tone {
    match status {
        KeyStatus::Stored => Tone::Success,
        KeyStatus::Missing => Tone::Warning,
        KeyStatus::Backend(_) => Tone::Danger,
    }
}

/// The words of a key status: they name the account, never the key.
pub open spec fn status_text_of(status: KeyStatus, account: Seq<char>) -> Seq<char> {
    match status {
        KeyStatus::Stored => "Key stored for "@ + account,
        KeyStatus::Missing => "No key for "@ + account + " yet"@,
        KeyStatus::Backend(detail) => "Keychain unavailable: "@ + detail@,
    }
}

/// The status line of a key section.
pub fn status_line(status: &KeyStatus, account: &str) -> (r: (Tone, String))
    ensures
        r.0 == tone_of(*status),
        r.1@ == status_text_of(*status, account@),
{
    let mut text = String::new();
    match status {
        KeyStatus::Stored => {
            push_str(&mut text, "Key stored for ");
            push_str(&mut text, account);
            (Tone::Success, text)
        },
        KeyStatus::Missing => {
            push_str(&mut text, "No key for ");
            push_str(&mut text, account);
            push_str(&mut text, " yet");
            (Tone::Warning, text)
        },
        KeyStatus::Backend(detail) => {
            push_str(&mut text, "Keychain unavailable: ");
            push_str(&mut text, detail.as_str());
            (Tone::Danger, text)
        },
    }
}

/// The confirmation body for removing the key of `account`.
pub open spec fn remove_body_of(account: Seq<char>) -> Seq<char> {
    "Hark forgets the \""@ + account
        + "\" key stored in the OS keychain. Dictation stops until a new key is stored."@
}

/// One keychain account's section.
pub struct KeySection {
    account: String,
    status: KeyStatus,
    paste: String,
    notice: Option<Result<String, String>>,
    confirm: Option<Confirm>,
}

impl KeySection {
    /// The keychain account.
    pub closed spec fn account_view(&self) -> Seq<char> {
        self.account@
    }

    /// The cached status.
    pub closed spec fn status_view(&self) -> KeyStatus {
        self.status
    }

    /// The paste buffer.
    pub closed spec fn paste_view(&self) -> Seq<char> {
        self.paste@
    }

    /// The outcome of the last store or removal, shown until the next one.
    pub closed spec fn notice_view(&self) -> Option<Result<Seq<char>, Seq<char>>> {
        match self.notice {
            Some(Ok(t)) => Some(Ok(t@)),
            Some(Err(t)) => Some(Err(t@)),
            None => None,
        }
    }

    /// The pending removal confirmation, if any.
    pub closed spec fn confirm_view(&self) -> Option<Confirm> {
        self.confirm
    }

    /// A section for `account`, whose status the glue read once.
    pub fn new(account: &str, status: KeyStatus) -> (s: Self)
        ensures
            s.account_view() == account@,
            s.status_view() == status,
            s.paste_view().len() == 0,
            s.notice_view() is None,
            s.confirm_view() is None,
    {
        let mut a = String::new();
        push_str(&mut a, account);
        KeySection { account: a, status, paste: String::new(), notice: None, confirm: None }
    }

    /// The keychain account.
    pub fn account(&self) -> (a: &str)
        ensures
            a@ == self.account_view(),
    {
        self.account.as_str()
    }

    /// Whether a key is stored.
    pub fn stored(&self) -> (b: bool)
        ensures
            b == (self.status_view() is Stored),
    {
        match self.status {
            KeyStatus::Stored => true,
            _ => false,
        }
    }

    /// Point the section at a (possibly different) account. Only an actual
    /// change resets the section; the answer says whether the status must be
    /// read again (it is never read per frame).
    pub fn sync_account(&mut self, account: &str) -> (changed: bool)
        ensures
            changed == (old(self).account_view() != account@),
            final(self).account_view() == account@,
            changed ==> final(self).paste_view().len() == 0 && final(self).notice_view() is None
                && final(self).confirm_view() is None,
            !changed ==> *final(self) == *old(self),
            final(self).status_view() == old(self).status_view(),
    {
        let same = crate::text::same_chars(self.account.as_str(), account);
        if same {
            return false;
        }
        let mut a = String::new();
        push_str(&mut a, account);
        self.account = a;
        self.paste = String::new();
        self.notice = None;
        self.confirm = None;
        true
    }

    /// Take a freshly read status.
    pub fn set_status(&mut self, status: KeyStatus)
        ensures
            final(self).status_view() == status,
            final(self).account_view() == old(self).account_view(),
            final(self).paste_view() == old(self).paste_view(),
            final(self).notice_view() == old(self).notice_view(),
            final(self).confirm_view() == old(self).confirm_view(),
    {
        self.status = status;
    }

    /// Replace the paste buffer with what the user typed.
    pub fn set_paste(&mut self, text: String)
        ensures
            final(self).paste_view() == text@,
            final(self).account_view() == old(self).account_view(),
            final(self).status_view() == old(self).status_view(),
            final(self).notice_view() == old(self).notice_view(),
            final(self).confirm_view() == old(self).confirm_view(),
    {
        self.paste = text;
    }

    /// The key to store, when the paste buffer holds more than whitespace.
    pub fn pending_key(&self) -> (k: Option<&str>)
        ensures
            match k {
                Some(s) => trim(self.paste_view()).len() > 0 && s@ == self.paste_view(),
                None => trim(self.paste_view()).len() == 0,
            },
    {
        let t = trim_str(self.paste.as_str());
        if t.as_str().is_empty() {
            None
        } else {
            Some(self.paste.as_str())
        }
    }

    /// Record a store attempt's outcome. Whatever it was, the paste buffer
    /// is cleared; the answer says whether the keychain changed.
    pub fn stored_outcome(&mut self, result: Result<(), String>) -> (changed: bool)
        ensures
            changed == (result is Ok),
            final(self).paste_view().len() == 0,
            final(self).notice_view() == (match result {
                Ok(_) => Some(Ok::<Seq<char>, Seq<char>>("Key stored"@)),
                Err(e) => Some(Err(e@)),
            }),
            final(self).account_view() == old(self).account_view(),
            final(self).status_view() == old(self).status_view(),
            final(self).confirm_view() == old(self).confirm_view(),
    {
        let changed = match result {
            Ok(()) => {
                let mut t = String::new();
                push_str(&mut t, "Key stored");
                self.notice = Some(Ok(t));
                true
            },
            Err(e) => {
                self.notice = Some(Err(e));
                false
            },
        };
        self.paste = String::new();
        changed
    }

    /// Ask before removing the stored key.
    pub fn ask_remove(&mut self)
        ensures
            final(self).confirm_view() matches Some(c) && c.title@ == "Remove key?"@ && c.body@
                == remove_body_of(old(self).account_view()) && c.action@ == "Remove key"@
                && c.focus_cancel,
            final(self).account_view() == old(self).account_view(),
            final(self).status_view() == old(self).status_view(),
            final(self).paste_view() == old(self).paste_view(),
            final(self).notice_view() == old(self).notice_view(),
    {
        let mut title = String::new();
        push_str(&mut title, "Remove key?");
        let mut body = String::new();
        push_str(&mut body, "Hark forgets the \"");
        push_str(&mut body, self.account.as_str());
        push_str(
            &mut body,
            "\" key stored in the OS keychain. Dictation stops until a new key is stored.",
        );
        let mut action = String::new();
        push_str(&mut action, "Remove key");
        self.confirm = Some(Confirm::new(title, body, action));
    }

    /// The user declined the removal.
    pub fn cancel_remove(&mut self)
        ensures
            final(self).confirm_view() is None,
            final(self).account_view() == old(self).account_view(),
            final(self).status_view() == old(self).status_view(),
            final(self).paste_view() == old(self).paste_view(),
            final(self).notice_view() == old(self).notice_view(),
    {
        self.confirm = None;
    }

    /// Record a removal's outcome; the confirmation closes either way.
    pub fn removed_outcome(&mut self, result: Result<(), String>) -> (changed: bool)
        ensures
            changed == (result is Ok),
            final(self).confirm_view() is None,
            final(self).notice_view() == (match result {
                Ok(_) => Some(Ok::<Seq<char>, Seq<char>>("Key removed"@)),
                Err(e) => Some(Err(e@)),
            }),
            final(self).account_view() == old(self).account_view(),
            final(self).status_view() == old(self).status_view(),
            final(self).paste_view() == old(self).paste_view(),
    {
        let changed = match result {
            Ok(()) => {
                let mut t = String::new();
                push_str(&mut t, "Key removed");
                self.notice = Some(Ok(t));
                true
            },
            Err(e) => {
                self.notice = Some(Err(e));
                false
            },
        };
        self.confirm = None;
        changed
    }

    /// The notice line, if any: its tone and words.
    pub fn notice_line(&self) -> (r: Option<(Tone, &str)>)
        ensures
            match self.notice_view() {
                None => r is None,
                Some(Ok(t)) => r matches Some(p) && p.0 == Tone::Success && p.1@ == t,
                Some(Err(t)) => r matches Some(p) && p.0 == Tone::Danger && p.1@ == t,
            },
    {
        match &self.notice {
            None => None,
            Some(Ok(t)) => Some((Tone::Success, t.as_str())),
            Some(Err(t)) => Some((Tone::Danger, t.as_str())),
        }
    }

    /// The pending removal confirmation, for rendering.
    pub fn pending_confirm(&self) -> (c: Option<&Confirm>)
        ensures
            match c {
                Some(x) => self.confirm_view() == Some(*x),
                None => self.confirm_view() is None,
            },
    {
        match &self.confirm {
            Some(x) => Some(x),
            None => None,
        }
    }
}

} // verus!
