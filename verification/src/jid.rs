//! JIDs: the identifiers of users, groups and broadcasts.

use vstd::prelude::*;

use crate::text::{ends_with, str_ends_with};

verus! {

/// A JID (Jabber ID), such as `1234567890@s.whatsapp.net`.
#[derive(Debug, PartialEq, Eq, Hash)]
pub struct Jid(String);

impl View for Jid {
    type V = Seq<char>;

    closed spec fn view(&self) -> Seq<char> {
        self.0@
    }
}

impl Clone for Jid {
    fn clone(&self) -> (r: Self)
        ensures
            r == *self,
    {
        Jid(self.0.clone())
    }
}

/// The leading run of `+` characters removed.
pub open spec fn drop_leading_plus(s: Seq<char>) -> Seq<char>
    decreases s.len(),
{
    if s.len() > 0 && s[0] == '+' {
        drop_leading_plus(s.skip(1))
    } else {
        s
    }
}

proof fn lemma_drop_leading_plus_at(s: Seq<char>, i: int)
    requires
        0 <= i <= s.len(),
        forall|j: int| 0 <= j < i ==> s[j] == '+',
        i == s.len() || s[i] != '+',
    ensures
        drop_leading_plus(s) == s.skip(i),
    decreases i,
{
    if i == 0 {
        assert(s.skip(0) =~= s);
    } else {
        let t = s.skip(1);
        assert(forall|j: int| 0 <= j < i - 1 ==> t[j] == '+');
        lemma_drop_leading_plus_at(t, i - 1);
        assert(t.skip(i - 1) =~= s.skip(i));
    }
}

impl Jid {
    /// Wrap a raw JID string, unchanged.
    pub fn new(jid: String) -> (r: Self)
        ensures
            r@ == jid@,
    {
        Jid(jid)
    }

    /// Build a user JID from a phone number: leading `+` signs are dropped
    /// and the user server suffix is appended.
    pub fn user(phone: &str) -> (r: Self)
        ensures
            r@ == drop_leading_plus(phone@) + "@s.whatsapp.net"@,
    {
        let n = phone.unicode_len();
        let mut i: usize = 0;
        while i < n && phone.get_char(i) == '+'
            invariant
                n == phone@.len(),
                0 <= i <= n,
                forall|j: int| 0 <= j < i ==> phone@[j] == '+',
            decreases n - i,
        {
            i = i + 1;
        }
        proof {
            lemma_drop_leading_plus_at(phone@, i as int);
        }
        let trimmed = phone.substring_char(i, n);
        let mut out: String = trimmed.to_owned();
        out.append("@s.whatsapp.net");
        Jid(out)
    }

    /// Build a group JID: the group server suffix is appended.
    pub fn group(group_id: &str) -> (r: Self)
        ensures
            r@ == group_id@ + "@g.us"@,
    {
        let mut out: String = group_id.to_owned();
        out.append("@g.us");
        Jid(out)
    }

    /// The raw JID string.
    pub fn as_str(&self) -> (r: &str)
        ensures
            r@ == self@,
    {
        self.0.as_str()
    }

    /// Whether this is a group JID.
    pub fn is_group(&self) -> (r: bool)
        ensures
            r == ends_with(self@, "@g.us"@),
    {
        str_ends_with(self.0.as_str(), "@g.us")
    }

    /// Whether this is a user JID.
    pub fn is_user(&self) -> (r: bool)
        ensures
            r == ends_with(self@, "@s.whatsapp.net"@),
    {
        str_ends_with(self.0.as_str(), "@s.whatsapp.net")
    }
}

/// A structured JID as the native layer reports it: user part, server part
/// and a device number.
#[derive(Debug, PartialEq, Eq)]
pub struct JidInfo {
    pub user: String,
    pub server: String,
    pub device: u16,
}

impl Clone for JidInfo {
    fn clone(&self) -> (r: Self)
        ensures
            r == *self,
    {
        JidInfo { user: self.user.clone(), server: self.server.clone(), device: self.device }
    }
}

impl JidInfo {
    /// Render as a sendable JID: `user@server`.
    pub fn to_jid(&self) -> (r: Jid)
        ensures
            r@ == self.user@ + "@"@ + self.server@,
    {
        let mut out: String = self.user.as_str().to_owned();
        out.append("@");
        out.append(self.server.as_str());
        Jid(out)
    }
}

} // verus!
