use vstd::prelude::*;

verus! {

/// A page of the application.
#[derive(Clone, Copy, Debug, PartialEq, Eq, Structural)]
pub enum Page {
    User,
    Organization,
    Job,
    Settings,
}

/// The record kind whose manager receives the generic intents.
#[derive(Clone, Copy, Debug, PartialEq, Eq, Structural)]
pub enum DomainEntity {
    User,
    Organization,
    Job,
    /// No record kind is active (the settings page).
    Unset,
}

/// The record kind that a page shows.
pub open spec fn entity_of_page(page: Page) -> DomainEntity {
    match page {
        Page::User => DomainEntity::User,
        Page::Organization => DomainEntity::Organization,
        Page::Job => DomainEntity::Job,
        Page::Settings => DomainEntity::Unset,
    }
}

/// What the user asked for, or what the database setup reported.
#[derive(Clone, Debug, PartialEq, Eq)]
pub enum Message {
    Navigate(Page),
    NameChanged(String),
    /// A job was picked for the draft user, by identity.
    JobSelected(usize),
    /// An organization was picked for the draft user, by identity.
    OrganizationSelected(usize),
    /// The job of a listed user was clicked, to open it.
    JobClicked(usize),
    /// The organization of a listed user was clicked, to open it.
    OrganizationClicked(usize),
    Create,
    Update,
    Delete(usize),
    Load(usize),
    CancelEdit,
    DatabaseInitialized,
    DatabaseError(String),
}

} // verus!
