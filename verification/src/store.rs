//! The token store: zero or one bearer credential, shared by the whole client.

use vstd::prelude::*;
use crate::storage::{LocalStorage, ACCESS_TOKEN_KEY};
use crate::token::Token;

verus! {

/// The state of the token store: the value in memory and the entries of the
/// persistent storage behind it.
pub struct TokenStoreView {
    pub memory: Option<Seq<char>>,
    pub persisted: Map<Seq<char>, Seq<char>>,
}

impl TokenStoreView {
    /// The credential that the store answers: the in-memory value where there
    /// is one, else the persisted credential.
    pub open spec fn current(self) -> Option<Seq<char>> {
        match self.memory {
            Some(token) => Some(token),
            None => if self.persisted.contains_key(ACCESS_TOKEN_KEY@) {
                Some(self.persisted[ACCESS_TOKEN_KEY@])
            } else {
                None
            },
        }
    }

    /// The state after `token` was set.
    pub open spec fn after_set(self, token: Seq<char>) -> TokenStoreView {
        TokenStoreView {
            memory: Some(token),
            persisted: self.persisted.insert(ACCESS_TOKEN_KEY@, token),
        }
    }

    /// The state after the credential was cleared.
    pub open spec fn after_clear(self) -> TokenStoreView {
        TokenStoreView { memory: None, persisted: self.persisted.remove(ACCESS_TOKEN_KEY@) }
    }

    /// The state after the page was loaded again: only the persistent storage
    /// is read, nothing is left in memory.
    pub open spec fn after_reload(self) -> TokenStoreView {
        TokenStoreView { memory: None, persisted: self.persisted }
    }
}

/// Holds the current credential in memory and in persistent storage.
#[derive(Debug)]
pub struct TokenStore {
    memory: Option<Token>,
    storage: LocalStorage,
}

impl View for TokenStore {
    type V = TokenStoreView;

    closed spec fn view(&self) -> TokenStoreView {
        TokenStoreView {
            memory: match self.memory {
                Some(token) => Some(token@),
                None => None,
            },
            persisted: self.storage@,
        }
    }
}

impl TokenStore {
    /// A store over `storage`, with nothing in memory: the state of the client
    /// right after the page was loaded.
    pub fn new(storage: LocalStorage) -> (store: Self)
        ensures
            store@ == (TokenStoreView { memory: None, persisted: storage@ }),
    {
        TokenStore { memory: None, storage }
    }

    /// The current credential: the in-memory value if present, otherwise the
    /// persisted one. `None` means that requests go out unauthenticated.
    pub fn get(&self) -> (token: Option<Token>)
        ensures
            match token {
                Some(held) => self@.current() == Some(held@),
                None => self@.current() is None,
            },
    {
        match &self.memory {
            Some(token) => Some(token.clone()),
            None => match self.storage.get_item(ACCESS_TOKEN_KEY) {
                Some(text) => Some(Token::new(text)),
                None => None,
            },
        }
    }

    /// Stores `token` in memory and persists it, replacing any earlier value.
    pub fn set(&mut self, token: Token)
        ensures
            final(self)@ == old(self)@.after_set(token@),
    {
        self.storage.set_item(ACCESS_TOKEN_KEY, token.as_str());
        self.memory = Some(token);
    }

    /// Removes the credential from memory and from persistent storage.
    pub fn clear(&mut self)
        ensures
            final(self)@ == old(self)@.after_clear(),
    {
        self.storage.remove_item(ACCESS_TOKEN_KEY);
        self.memory = None;
    }

    /// The store as it is after the page was loaded again: the in-memory value
    /// is gone, the persisted entries are as they were.
    pub fn reload(self) -> (store: Self)
        ensures
            store@ == self@.after_reload(),
    {
        TokenStore { memory: None, storage: self.storage }
    }

    /// Keeps `value` under `key` in the persistent storage behind the store,
    /// beside the credential. What is held in memory stays.
    pub fn set_entry(&mut self, key: &str, value: &str)
        ensures
            final(self)@ == (TokenStoreView {
                memory: old(self)@.memory,
                persisted: old(self)@.persisted.insert(key@, value@),
            }),
    {
        self.storage.set_item(key, value);
    }

    /// The persistent storage behind the store.
    pub fn storage(&self) -> (storage: &LocalStorage)
        ensures
            storage@ == self@.persisted,
    {
        &self.storage
    }

    /// Gives the persistent storage back, dropping the in-memory value.
    pub fn into_storage(self) -> (storage: LocalStorage)
        ensures
            storage@ == self@.persisted,
    {
        self.storage
    }
}

/// A credential that was set is the one that the store answers, both right
/// away and after a reload that leaves nothing but the persistent storage.
pub proof fn lemma_set_token_is_kept(store: TokenStoreView, token: Seq<char>)
    ensures
        store.after_set(token).current() == Some(token),
        store.after_set(token).after_reload().current() == Some(token),
{
}

/// Once cleared, the store answers no credential, before and after a reload.
pub proof fn lemma_cleared_store_is_empty(store: TokenStoreView)
    ensures
        store.after_clear().current() is None,
        store.after_clear().after_reload().current() is None,
{
}

} // verus!
