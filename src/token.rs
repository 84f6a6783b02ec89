use vstd::prelude::*;
use crate::keyed::{
    Keyed, find, put, put_from, value_of, unique_keys, lemma_value_after_append, lemma_value_absent,
    lemma_value_missing,
};

verus! {

/// An OAuth2 bearer credential.
#[derive(Debug)]
pub struct Token {
    pub access_token: String,
    pub refresh_token: Option<String>,
    /// When the credential stops being valid, in seconds since the epoch.
    pub expires_at: Option<u64>,
}

impl Clone for Token {
    fn clone(&self) -> (r: Self)
        ensures
            r == *self,
    {
        let refresh_token = match &self.refresh_token {
            Some(t) => Some(t.clone()),
            None => None,
        };
        Token { access_token: self.access_token.clone(), refresh_token, expires_at: self.expires_at }
    }
}

/// What the token endpoint answers with.
#[derive(Debug)]
pub struct ExternalToken {
    pub access_token: String,
    pub refresh_token: String,
    pub token_type: String,
    pub expires_in: u64,
}

/// `now + secs`, or the largest instant when that does not fit.
pub open spec fn later(now: u64, secs: u64) -> u64 {
    if now as int + secs as int > u64::MAX {
        u64::MAX
    } else {
        (now + secs) as u64
    }
}

fn add_secs(now: u64, secs: u64) -> (r: u64)
    ensures
        r == later(now, secs),
{
    if now <= u64::MAX - secs {
        now + secs
    } else {
        u64::MAX
    }
}

impl Token {
    /// A credential made of a bare access token.
    pub fn from_access_token(access_token: String) -> (r: Token)
        ensures
            r.access_token == access_token,
            r.refresh_token is None,
            r.expires_at is None,
    {
        Token { access_token, refresh_token: None, expires_at: None }
    }

    /// A credential that expires `expires_in` seconds after `now`.
    pub fn expiring(access_token: String, expires_in: u64, now: u64) -> (r: Token)
        ensures
            r.access_token == access_token,
            r.refresh_token is None,
            r.expires_at == Some(later(now, expires_in)),
    {
        Token { access_token, refresh_token: None, expires_at: Some(add_secs(now, expires_in)) }
    }

    /// A refreshable credential that expires `expires_in` seconds after `now`.
    pub fn refreshable_token(access_token: String, refresh_token: String, expires_in: u64, now: u64) -> (r: Token)
        ensures
            r.access_token == access_token,
            r.refresh_token == Some(refresh_token),
            r.expires_at == Some(later(now, expires_in)),
    {
        Token { access_token, refresh_token: Some(refresh_token), expires_at: Some(add_secs(now, expires_in)) }
    }

    /// The credential the token endpoint granted at `now`.
    pub fn new(tokens: ExternalToken, now: u64) -> (r: Token)
        ensures
            r.access_token == tokens.access_token,
            r.refresh_token == Some(tokens.refresh_token),
            r.expires_at == Some(later(now, tokens.expires_in)),
    {
        Token::refreshable_token(tokens.access_token, tokens.refresh_token, tokens.expires_in, now)
    }

    /// The bearer text.
    pub fn access_token(&self) -> (r: &str)
        ensures
            r@ == self.access_token@,
    {
        self.access_token.as_str()
    }
}

/// What is left of a stored credential once those with access token `at`
/// are removed.
pub open spec fn without(v: Option<Token>, at: Seq<char>) -> Option<Token> {
    match v {
        Some(t) => if t.access_token@ == at {
            None
        } else {
            Some(t)
        },
        None => None,
    }
}

/// The credentials of each conversation, by conversation key.
#[derive(Debug)]
pub struct Database {
    pub tokens: Vec<Keyed<Token>>,
}

impl Database {
    /// The credential stored for `key`.
    pub open spec fn token(&self, key: Seq<char>) -> Option<Token> {
        value_of(self.tokens@, key)
    }

    /// Each conversation has at most one credential.
    pub open spec fn wf(&self) -> bool {
        unique_keys(self.tokens@)
    }

    /// An empty store.
    pub fn new() -> (r: Database)
        ensures
            r.wf(),
            forall|k: Seq<char>| #[trigger] r.token(k) is None,
    {
        Database { tokens: Vec::new() }
    }

    /// Stores `token` for the conversation `from`, replacing any other.
    pub fn add_token(&mut self, from: String, token: Token)
        requires
            old(self).wf(),
        ensures
            final(self).wf(),
            put_from(final(self).tokens@, old(self).tokens@, from@, token),
    {
        put(&mut self.tokens, from, token);
    }

    /// The credential of the conversation `key`.
    pub fn get_token(&self, key: String) -> (r: Option<&Token>)
        ensures
            match r {
                Some(t) => self.token(key@) == Some(*t),
                None => self.token(key@) is None,
            },
    {
        find(&self.tokens, key.as_str())
    }

    /// The bearer text to send for the conversation `key`: its credential's
    /// access token, or `missing_bearer` when it has none.
    pub fn bearer_for(&self, key: String) -> (r: String)
        ensures
            match self.token(key@) {
                Some(t) => r@ == t.access_token@,
                None => r@ == "missing_bearer"@,
            },
    {
        match self.get_token(key) {
            Some(t) => t.access_token.clone(),
            None => String::from_str("missing_bearer"),
        }
    }

    /// Forgets every conversation whose credential has the access token
    /// `access_token`.
    pub fn remove_token(&mut self, access_token: String)
        requires
            old(self).wf(),
        ensures
            final(self).wf(),
            forall|k: Seq<char>| #[trigger] final(self).token(k) == without(old(self).token(k), access_token@),
    {
        let ghost all = self.tokens@;
        let mut kept: Vec<Keyed<Token>> = Vec::new();
        let mut i: usize = 0;
        while i < self.tokens.len()
            invariant
                all == self.tokens@,
                all == old(self).tokens@,
                unique_keys(all),
                i <= all.len(),
                unique_keys(kept@),
                forall|k: Seq<char>| #[trigger] value_of(kept@, k) == without(value_of(all.take(i as int), k), access_token@),
            decreases self.tokens.len() - i,
        {
            let e = &self.tokens[i];
            let ghost ki = all[i as int].key@;
            let ghost prefix = all.take(i as int);
            proof {
                assert(all.take(i + 1) =~= prefix.push(all[i as int]));
                assert forall|j: int| 0 <= j < prefix.len() implies #[trigger] prefix[j].key@ != ki by {
                    assert(all[j].key@ != all[i as int].key@);
                }
                lemma_value_missing(prefix, ki);
                assert forall|k: Seq<char>| #[trigger] value_of(all.take(i + 1), k) == match value_of(prefix, k) {
                    Some(v) => Some(v),
                    None => if all[i as int].key@ == k { Some(all[i as int].value) } else { None },
                } by {
                    lemma_value_after_append(prefix, all[i as int], k);
                }
            }
            if e.value.access_token != access_token {
                let entry = Keyed { key: e.key.clone(), value: e.value.clone() };
                proof {
                    assert(value_of(kept@, ki) is None);
                    lemma_value_absent(kept@, ki);
                    assert forall|k: Seq<char>| #[trigger] value_of(kept@.push(entry), k) == match value_of(kept@, k) {
                        Some(v) => Some(v),
                        None => if entry.key@ == k { Some(entry.value) } else { None },
                    } by {
                        lemma_value_after_append(kept@, entry, k);
                    }
                }
                kept.push(entry);
            }
            i = i + 1;
        }
        proof {
            assert(all.take(i as int) =~= all);
        }
        self.tokens = kept;
    }
}

} // verus!
