use vstd::prelude::*;

use crate::error::DomainError;
use crate::memory::MemoryRepository;
use crate::models::{Entry, EntryFilter, NewEntry, User};

verus! {

/// The credential capability: registering users and checking logins.
pub trait UserRepository {
    /// Registers `username` with a salted hash of `password`.
    fn create_user(&mut self, username: &str, password: &str) -> Result<User, DomainError>;

    /// The user whose name and password match, or `None` for an unknown name
    /// or a wrong password alike.
    fn verify_user(&self, username: &str, password: &str) -> Result<Option<User>, DomainError>;

    /// All user names in ascending order.
    fn list_users(&self) -> Result<Vec<String>, DomainError>;
}

/// The entry capability: storing entries and querying them newest first.
pub trait EntryRepository: UserRepository {
    /// Stores a validated entry and returns it with its new identifier.
    fn add(&mut self, entry: NewEntry) -> Result<Entry, DomainError>;

    /// The stored entries that `filter` accepts, newest first.
    fn list(&self, filter: EntryFilter) -> Result<Vec<Entry>, DomainError>;
}

impl UserRepository for MemoryRepository {
    fn create_user(&mut self, username: &str, password: &str) -> Result<User, DomainError> {
        MemoryRepository::create_user(self, username, password)
    }

    fn verify_user(&self, username: &str, password: &str) -> Result<Option<User>, DomainError> {
        MemoryRepository::verify_user(self, username, password)
    }

    fn list_users(&self) -> Result<Vec<String>, DomainError> {
        MemoryRepository::list_users(self)
    }
}

impl EntryRepository for MemoryRepository {
    fn add(&mut self, entry: NewEntry) -> Result<Entry, DomainError> {
        MemoryRepository::add(self, entry)
    }

    fn list(&self, filter: EntryFilter) -> Result<Vec<Entry>, DomainError> {
        MemoryRepository::list(self, filter)
    }
}

} // verus!
