//! The kinds of item that a host session holds.

use vstd::prelude::*;

verus! {

/// The kind of an item of the host session.
#[derive(Clone, Copy, Debug, PartialEq, Eq, Structural)]
pub enum ItemType {
    /// The service name.
    Service,
    /// The user name.
    User,
    /// The tty name.
    Tty,
    /// The remote host name.
    RHost,
    /// The conversation structure.
    Conv,
    /// The authentication token (password).
    AuthTok,
    /// The old authentication token.
    OldAuthTok,
    /// The remote user name.
    RUser,
    /// The prompt for getting a username.
    UserPrompt,
    /// A function supplied by the application to override failure delays.
    FailDelay,
    /// The X display name.
    XDisplay,
    /// The X server authentication data.
    XAuthData,
    /// The type for the authentication token.
    AuthTokType,
}

impl ItemType {
    /// The number that the host framework gives this kind of item.
    pub open spec fn number(self) -> int {
        match self {
            ItemType::Service => 1,
            ItemType::User => 2,
            ItemType::Tty => 3,
            ItemType::RHost => 4,
            ItemType::Conv => 5,
            ItemType::AuthTok => 6,
            ItemType::OldAuthTok => 7,
            ItemType::RUser => 8,
            ItemType::UserPrompt => 9,
            ItemType::FailDelay => 10,
            ItemType::XDisplay => 11,
            ItemType::XAuthData => 12,
            ItemType::AuthTokType => 13,
        }
    }

    /// The number that the host framework gives this kind of item.
    pub fn code(self) -> (n: u32)
        ensures
            n == self.number(),
            1 <= n <= 13,
    {
        match self {
            ItemType::Service => 1,
            ItemType::User => 2,
            ItemType::Tty => 3,
            ItemType::RHost => 4,
            ItemType::Conv => 5,
            ItemType::AuthTok => 6,
            ItemType::OldAuthTok => 7,
            ItemType::RUser => 8,
            ItemType::UserPrompt => 9,
            ItemType::FailDelay => 10,
            ItemType::XDisplay => 11,
            ItemType::XAuthData => 12,
            ItemType::AuthTokType => 13,
        }
    }

    /// The kind of item with the number `n`, if there is one.
    pub fn from_code(n: u32) -> (r: Option<ItemType>)
        ensures
            match r {
                Some(item) => item.number() == n,
                None => !(1 <= n <= 13),
            },
    {
        match n {
            1 => Some(ItemType::Service),
            2 => Some(ItemType::User),
            3 => Some(ItemType::Tty),
            4 => Some(ItemType::RHost),
            5 => Some(ItemType::Conv),
            6 => Some(ItemType::AuthTok),
            7 => Some(ItemType::OldAuthTok),
            8 => Some(ItemType::RUser),
            9 => Some(ItemType::UserPrompt),
            10 => Some(ItemType::FailDelay),
            11 => Some(ItemType::XDisplay),
            12 => Some(ItemType::XAuthData),
            13 => Some(ItemType::AuthTokType),
            _ => None,
        }
    }
}

} // verus!
