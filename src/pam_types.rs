//! The status codes, item types and flags of the pluggable-authentication
//! module framework, with the numeric values of its C interface.

use vstd::prelude::*;

verus! {

/// The framework's opaque session handle; it is only ever handled through a
/// pointer, on the side of the caller that talks to the C interface.
#[allow(non_camel_case_types)]
pub struct pam_handle_t {
    _unused: [u8; 0],
}

/// The status codes that the framework returns and that this tool knows.
pub open spec fn is_known_return(v: i32) -> bool {
    0 <= v <= 29 && v != 9 && v != 14
}

/// The item types that a session carries.
pub open spec fn is_known_item(v: i32) -> bool {
    1 <= v <= 13
}

/// The flags that this tool can hand to the framework.
pub open spec fn is_known_flag(v: i32) -> bool {
    v == 0x8000 || v == 1
}

/// A status code returned by the framework's calls.
#[derive(Clone, Copy, Debug, PartialEq, Eq, Structural)]
pub enum PamReturn {
    Abort,
    AcctExpired,
    AuthtokDisableAging,
    AuthtokErr,
    AuthtokExpired,
    AuthtokLockBusy,
    AuthtokRecoveryErr,
    AuthErr,
    BufErr,
    ConvErr,
    CredErr,
    CredExpired,
    CredInsufficient,
    CredUnavail,
    Ignore,
    MaxTries,
    ModuleUnkown,
    NewAuthtokReqd,
    NoModuleData,
    OpenErr,
    PermDenied,
    ServiceErr,
    Success,
    SymbolErr,
    TryAgain,
    UserUnknown,
    SystemErr,
    BadItem,
}

/// The numeric value of a status code.
pub open spec fn return_code(x: PamReturn) -> i32 {
    match x {
        PamReturn::Abort => 26,
        PamReturn::AcctExpired => 13,
        PamReturn::AuthtokDisableAging => 23,
        PamReturn::AuthtokErr => 20,
        PamReturn::AuthtokExpired => 27,
        PamReturn::AuthtokLockBusy => 22,
        PamReturn::AuthtokRecoveryErr => 21,
        PamReturn::AuthErr => 7,
        PamReturn::BufErr => 5,
        PamReturn::ConvErr => 19,
        PamReturn::CredErr => 17,
        PamReturn::CredExpired => 16,
        PamReturn::CredInsufficient => 8,
        PamReturn::CredUnavail => 15,
        PamReturn::Ignore => 25,
        PamReturn::MaxTries => 11,
        PamReturn::ModuleUnkown => 28,
        PamReturn::NewAuthtokReqd => 12,
        PamReturn::NoModuleData => 18,
        PamReturn::OpenErr => 1,
        PamReturn::PermDenied => 6,
        PamReturn::ServiceErr => 3,
        PamReturn::Success => 0,
        PamReturn::SymbolErr => 2,
        PamReturn::TryAgain => 24,
        PamReturn::UserUnknown => 10,
        PamReturn::SystemErr => 4,
        PamReturn::BadItem => 29,
    }
}

impl PamReturn {
    /// The numeric value that the module framework uses for this value.
    pub fn code(self) -> (r: i32)
        ensures
            r == return_code(self),
    {
        match self {
            PamReturn::Abort => 26,
            PamReturn::AcctExpired => 13,
            PamReturn::AuthtokDisableAging => 23,
            PamReturn::AuthtokErr => 20,
            PamReturn::AuthtokExpired => 27,
            PamReturn::AuthtokLockBusy => 22,
            PamReturn::AuthtokRecoveryErr => 21,
            PamReturn::AuthErr => 7,
            PamReturn::BufErr => 5,
            PamReturn::ConvErr => 19,
            PamReturn::CredErr => 17,
            PamReturn::CredExpired => 16,
            PamReturn::CredInsufficient => 8,
            PamReturn::CredUnavail => 15,
            PamReturn::Ignore => 25,
            PamReturn::MaxTries => 11,
            PamReturn::ModuleUnkown => 28,
            PamReturn::NewAuthtokReqd => 12,
            PamReturn::NoModuleData => 18,
            PamReturn::OpenErr => 1,
            PamReturn::PermDenied => 6,
            PamReturn::ServiceErr => 3,
            PamReturn::Success => 0,
            PamReturn::SymbolErr => 2,
            PamReturn::TryAgain => 24,
            PamReturn::UserUnknown => 10,
            PamReturn::SystemErr => 4,
            PamReturn::BadItem => 29,
        }
    }

    /// The value with numeric value `v`, if there is one.
    pub fn from_i32(v: i32) -> (r: Option<PamReturn>)
        ensures
            r is Some <==> is_known_return(v),
            r matches Some(x) ==> return_code(x) == v,
    {
        match v {
            0 => Some(PamReturn::Success),
            1 => Some(PamReturn::OpenErr),
            2 => Some(PamReturn::SymbolErr),
            3 => Some(PamReturn::ServiceErr),
            4 => Some(PamReturn::SystemErr),
            5 => Some(PamReturn::BufErr),
            6 => Some(PamReturn::PermDenied),
            7 => Some(PamReturn::AuthErr),
            8 => Some(PamReturn::CredInsufficient),
            10 => Some(PamReturn::UserUnknown),
            11 => Some(PamReturn::MaxTries),
            12 => Some(PamReturn::NewAuthtokReqd),
            13 => Some(PamReturn::AcctExpired),
            15 => Some(PamReturn::CredUnavail),
            16 => Some(PamReturn::CredExpired),
            17 => Some(PamReturn::CredErr),
            18 => Some(PamReturn::NoModuleData),
            19 => Some(PamReturn::ConvErr),
            20 => Some(PamReturn::AuthtokErr),
            21 => Some(PamReturn::AuthtokRecoveryErr),
            22 => Some(PamReturn::AuthtokLockBusy),
            23 => Some(PamReturn::AuthtokDisableAging),
            24 => Some(PamReturn::TryAgain),
            25 => Some(PamReturn::Ignore),
            26 => Some(PamReturn::Abort),
            27 => Some(PamReturn::AuthtokExpired),
            28 => Some(PamReturn::ModuleUnkown),
            29 => Some(PamReturn::BadItem),
            _ => None,
        }
    }
}
/// The type tag of an item that a session carries.
#[derive(Clone, Copy, Debug, PartialEq, Eq, Structural)]
pub enum PamItemType {
    Service,
    User,
    UserPrompt,
    TTY,
    RUser,
    RHost,
    Authtok,
    OldAuthtok,
    Conv,
    FailDelay,
    XDisplay,
    XAuthData,
    AuthtokType,
}

/// The numeric value of an item type.
pub open spec fn item_code(x: PamItemType) -> i32 {
    match x {
        PamItemType::Service => 1,
        PamItemType::User => 2,
        PamItemType::UserPrompt => 9,
        PamItemType::TTY => 3,
        PamItemType::RUser => 8,
        PamItemType::RHost => 4,
        PamItemType::Authtok => 6,
        PamItemType::OldAuthtok => 7,
        PamItemType::Conv => 5,
        PamItemType::FailDelay => 10,
        PamItemType::XDisplay => 11,
        PamItemType::XAuthData => 12,
        PamItemType::AuthtokType => 13,
    }
}

impl PamItemType {
    /// The numeric value that the module framework uses for this value.
    pub fn code(self) -> (r: i32)
        ensures
            r == item_code(self),
    {
        match self {
            PamItemType::Service => 1,
            PamItemType::User => 2,
            PamItemType::UserPrompt => 9,
            PamItemType::TTY => 3,
            PamItemType::RUser => 8,
            PamItemType::RHost => 4,
            PamItemType::Authtok => 6,
            PamItemType::OldAuthtok => 7,
            PamItemType::Conv => 5,
            PamItemType::FailDelay => 10,
            PamItemType::XDisplay => 11,
            PamItemType::XAuthData => 12,
            PamItemType::AuthtokType => 13,
        }
    }

    /// The value with numeric value `v`, if there is one.
    pub fn from_i32(v: i32) -> (r: Option<PamItemType>)
        ensures
            r is Some <==> is_known_item(v),
            r matches Some(x) ==> item_code(x) == v,
    {
        match v {
            1 => Some(PamItemType::Service),
            2 => Some(PamItemType::User),
            3 => Some(PamItemType::TTY),
            4 => Some(PamItemType::RHost),
            5 => Some(PamItemType::Conv),
            6 => Some(PamItemType::Authtok),
            7 => Some(PamItemType::OldAuthtok),
            8 => Some(PamItemType::RUser),
            9 => Some(PamItemType::UserPrompt),
            10 => Some(PamItemType::FailDelay),
            11 => Some(PamItemType::XDisplay),
            12 => Some(PamItemType::XAuthData),
            13 => Some(PamItemType::AuthtokType),
            _ => None,
        }
    }
}
/// A flag that modifies a framework call.
#[derive(Clone, Copy, Debug, PartialEq, Eq, Structural)]
pub enum PamFlags {
    PamSilent,
    PamDisallowNullAuthtok,
}

/// The numeric value of a flag.
pub open spec fn flag_code(x: PamFlags) -> i32 {
    match x {
        PamFlags::PamSilent => 32768,
        PamFlags::PamDisallowNullAuthtok => 1,
    }
}

impl PamFlags {
    /// The numeric value that the module framework uses for this value.
    pub fn code(self) -> (r: i32)
        ensures
            r == flag_code(self),
    {
        match self {
            PamFlags::PamSilent => 32768,
            PamFlags::PamDisallowNullAuthtok => 1,
        }
    }

    /// The value with numeric value `v`, if there is one.
    pub fn from_i32(v: i32) -> (r: Option<PamFlags>)
        ensures
            r is Some <==> is_known_flag(v),
            r matches Some(x) ==> flag_code(x) == v,
    {
        match v {
            1 => Some(PamFlags::PamDisallowNullAuthtok),
            32768 => Some(PamFlags::PamSilent),
            _ => None,
        }
    }
}
/// An item that a session carries, with its value. Only the kinds whose
/// value is text are modelled; the conversation, fail-delay and
/// X-authentication items are C structures or function pointers and are not
/// modelled.
#[derive(Clone, Debug)]
pub enum PamItem {
    Service(String),
    User(String),
    UserPrompt(String),
    TTY(String),
    RUser(String),
    RHost(String),
    Authtok(String),
    OldAuthtok(String),
    XDisplay(String),
    AuthtokType(String),
}

/// The type tag of an item.
pub open spec fn item_type_of(i: PamItem) -> PamItemType {
    match i {
        PamItem::Service(_) => PamItemType::Service,
        PamItem::User(_) => PamItemType::User,
        PamItem::UserPrompt(_) => PamItemType::UserPrompt,
        PamItem::TTY(_) => PamItemType::TTY,
        PamItem::RUser(_) => PamItemType::RUser,
        PamItem::RHost(_) => PamItemType::RHost,
        PamItem::Authtok(_) => PamItemType::Authtok,
        PamItem::OldAuthtok(_) => PamItemType::OldAuthtok,
        PamItem::XDisplay(_) => PamItemType::XDisplay,
        PamItem::AuthtokType(_) => PamItemType::AuthtokType,
    }
}

impl PamItem {
    /// The type tag under which the framework stores this item.
    pub fn item_type(&self) -> (r: PamItemType)
        ensures
            r == item_type_of(*self),
    {
        match self {
            PamItem::Service(_) => PamItemType::Service,
            PamItem::User(_) => PamItemType::User,
            PamItem::UserPrompt(_) => PamItemType::UserPrompt,
            PamItem::TTY(_) => PamItemType::TTY,
            PamItem::RUser(_) => PamItemType::RUser,
            PamItem::RHost(_) => PamItemType::RHost,
            PamItem::Authtok(_) => PamItemType::Authtok,
            PamItem::OldAuthtok(_) => PamItemType::OldAuthtok,
            PamItem::XDisplay(_) => PamItemType::XDisplay,
            PamItem::AuthtokType(_) => PamItemType::AuthtokType,
        }
    }

    /// The item's text.
    pub fn value(&self) -> (r: &String)
        ensures
            r == match *self {
                PamItem::Service(v) => v,
                PamItem::User(v) => v,
                PamItem::UserPrompt(v) => v,
                PamItem::TTY(v) => v,
                PamItem::RUser(v) => v,
                PamItem::RHost(v) => v,
                PamItem::Authtok(v) => v,
                PamItem::OldAuthtok(v) => v,
                PamItem::XDisplay(v) => v,
                PamItem::AuthtokType(v) => v,
            },
    {
        match self {
            PamItem::Service(v) => v,
            PamItem::User(v) => v,
            PamItem::UserPrompt(v) => v,
            PamItem::TTY(v) => v,
            PamItem::RUser(v) => v,
            PamItem::RHost(v) => v,
            PamItem::Authtok(v) => v,
            PamItem::OldAuthtok(v) => v,
            PamItem::XDisplay(v) => v,
            PamItem::AuthtokType(v) => v,
        }
    }
}

} // verus!
