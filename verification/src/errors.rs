//! The failures of the ledger: what went wrong, and the kind it belongs to.

use vstd::prelude::*;
use vstd::string::*;

verus! {

/// The kinds into which failures fall.
#[derive(Clone, Copy, Debug, PartialEq, Eq, Structural)]
pub enum ErrorKind {
    /// The caller fails an ownership, whitelist or administrator check.
    Unauthorized,
    /// A stream, a remote contract or a stored record is absent.
    NotFound,
    /// The request itself is malformed.
    InvalidInput,
    /// The amount owed exceeds the funds at hand.
    InsufficientBalance,
    /// A cross-chain withdrawal is already in flight for the stream.
    AlreadyPending,
    /// No remote contract is registered for the destination chain.
    DstChainNotSupported,
    /// An inbound cross-chain payload cannot be decoded.
    DecodingFailure,
    /// The stored state contradicts itself, or a value left its range: not a
    /// failure a caller can mend by changing the request.
    Fatal,
}

/// The text of one decimal digit.
pub open spec fn digit_text(digit: nat) -> Seq<char> {
    if digit == 0 {
        "0"@
    } else if digit == 1 {
        "1"@
    } else if digit == 2 {
        "2"@
    } else if digit == 3 {
        "3"@
    } else if digit == 4 {
        "4"@
    } else if digit == 5 {
        "5"@
    } else if digit == 6 {
        "6"@
    } else if digit == 7 {
        "7"@
    } else if digit == 8 {
        "8"@
    } else {
        "9"@
    }
}

/// The text of a number in decimal, without leading zeros.
pub open spec fn decimal_text(n: nat) -> Seq<char>
    decreases n,
{
    if n < 10 {
        digit_text(n)
    } else {
        decimal_text(n / 10) + digit_text(n % 10)
    }
}

/// Writes a number in decimal.
pub fn decimal(n: u64) -> (text: String)
    ensures
        text@ == decimal_text(n as nat),
    decreases n,
{
    let last: u64 = n % 10;
    let digit: &'static str = if last == 0 {
        "0"
    } else if last == 1 {
        "1"
    } else if last == 2 {
        "2"
    } else if last == 3 {
        "3"
    } else if last == 4 {
        "4"
    } else if last == 5 {
        "5"
    } else if last == 6 {
        "6"
    } else if last == 7 {
        "7"
    } else if last == 8 {
        "8"
    } else {
        "9"
    };
    if n < 10 {
        String::from_str(digit)
    } else {
        decimal(n / 10).concat(digit)
    }
}

/// A failure of a ledger operation.
#[derive(Clone, Copy, Debug, PartialEq, Eq, Structural)]
pub enum LedgerError {
    /// No administrator is stored.
    OwnerNotSet,
    /// The caller is not the administrator.
    InvalidOwner,
    /// The caller may not act on this stream.
    NotAuthorized,
    /// An inbound request does not come from the registered remote contract.
    InvalidCaller,
    /// An address was not accepted as an account reference.
    InvalidAddress,
    /// The attached funds are not exactly one positive amount of the native coin.
    InvalidFund,
    /// The monthly rate gives no positive rate per second.
    RateTooLow,
    /// The start time lies before the current time.
    StartTimeInPast,
    /// A whitelist entry names a chain without a registered remote contract.
    InvalidChainId,
    /// No stream has the given id.
    StreamNotFound,
    /// The block's time lies before the time up to which the stream is
    /// settled: the stream has not started yet.
    StreamNotStarted,
    /// No remote contract is registered for the chain.
    RemoteContractNotFound,
    /// No contract version is stored.
    VersionNotSet,
    /// The amount owed exceeds the available balance.
    InsufficientBalance,
    /// A cross-chain withdrawal of the stream is still in flight.
    AlreadyPending,
    /// No remote contract is registered for the destination chain.
    DstChainNotSupported,
    /// The entry to enable is already in the whitelist.
    AlreadyWhitelisted,
    /// The entry to disable is not in the whitelist.
    NotWhitelisted,
    /// The stored contract is of another type.
    WrongContract,
    /// The stored version is not older than this one.
    NewerVersion,
    /// A reply carries an id that this ledger never asked for: the id.
    UnknownReplyId(u64),
    /// An inbound payload is not a well-formed encoding of a withdrawal request.
    DecodingFailure,
    /// A request would be longer than its encoder can produce.
    PayloadTooLarge,
    /// An amount or a counter left the range of its type.
    Overflow,
    /// No gas price is known for a chain.
    GasPriceUnavailable,
    /// No address encoding is known for a chain.
    ChainTypeUnknown,
    /// No pending record exists where one was expected.
    PendingRecordMissing,
    /// A pending record names a stream that does not exist.
    PendingStreamMissing,
    /// A stream's owner has no entry in the user index.
    UserIndexMissing,
    /// The user index names a stream that does not exist.
    IndexedStreamMissing,
}

impl LedgerError {
    /// The kind of this failure.
    pub open spec fn kind_of(self) -> ErrorKind {
        match self {
            LedgerError::InvalidOwner | LedgerError::NotAuthorized | LedgerError::InvalidCaller =>
                ErrorKind::Unauthorized,
            LedgerError::OwnerNotSet
            | LedgerError::StreamNotFound
            | LedgerError::RemoteContractNotFound
            | LedgerError::VersionNotSet => ErrorKind::NotFound,
            LedgerError::InvalidAddress
            | LedgerError::InvalidFund
            | LedgerError::RateTooLow
            | LedgerError::StartTimeInPast
            | LedgerError::InvalidChainId
            | LedgerError::StreamNotStarted
            | LedgerError::AlreadyWhitelisted
            | LedgerError::NotWhitelisted
            | LedgerError::WrongContract
            | LedgerError::NewerVersion
            | LedgerError::UnknownReplyId(_)
            | LedgerError::PayloadTooLarge => ErrorKind::InvalidInput,
            LedgerError::InsufficientBalance => ErrorKind::InsufficientBalance,
            LedgerError::AlreadyPending => ErrorKind::AlreadyPending,
            LedgerError::DstChainNotSupported => ErrorKind::DstChainNotSupported,
            LedgerError::DecodingFailure => ErrorKind::DecodingFailure,
            LedgerError::Overflow
            | LedgerError::GasPriceUnavailable
            | LedgerError::ChainTypeUnknown
            | LedgerError::PendingRecordMissing
            | LedgerError::PendingStreamMissing
            | LedgerError::UserIndexMissing
            | LedgerError::IndexedStreamMissing => ErrorKind::Fatal,
        }
    }

    /// The text that describes this failure to a person.
    pub open spec fn message_text(self) -> Seq<char> {
        match self {
            LedgerError::OwnerNotSet => "Owner_Not_Set"@,
            LedgerError::InvalidOwner => "Auth: Invalid Owner"@,
            LedgerError::NotAuthorized => "Not_Authorized"@,
            LedgerError::InvalidCaller => "Auth: Invalid Caller"@,
            LedgerError::InvalidAddress => "Invalid_Address"@,
            LedgerError::InvalidFund => "Invalid_Fund"@,
            LedgerError::RateTooLow => "Pay_Per_Month Should Be Greater than 2592000"@,
            LedgerError::StartTimeInPast => "Start_Time_Should'be_In_Past"@,
            LedgerError::InvalidChainId => "Invalid_ChainId_Passed!!"@,
            LedgerError::StreamNotFound => "Stream_Not_Found"@,
            LedgerError::StreamNotStarted => "Stream_Not_Started"@,
            LedgerError::RemoteContractNotFound => "Remote_Contract_Not_Found"@,
            LedgerError::VersionNotSet => "Version_Not_Set"@,
            LedgerError::InsufficientBalance => "Insufficient_Balance"@,
            LedgerError::AlreadyPending => "Last_Request_Still_Pending_Wait!!"@,
            LedgerError::DstChainNotSupported => "Dst_Chain_Not_Supported"@,
            LedgerError::AlreadyWhitelisted => "Already_WhiteListed"@,
            LedgerError::NotWhitelisted => "Not_WhiteListed"@,
            LedgerError::WrongContract => "Can only upgrade from same type"@,
            LedgerError::NewerVersion => "Cannot upgrade from a newer version"@,
            LedgerError::UnknownReplyId(id) => "Unknown reply id: "@ + decimal_text(id as nat),
            LedgerError::DecodingFailure => "Decoding_Failure"@,
            LedgerError::PayloadTooLarge => "Payload_Too_Large"@,
            LedgerError::Overflow => "Overflow"@,
            LedgerError::GasPriceUnavailable => "Gas_Price_Unavailable"@,
            LedgerError::ChainTypeUnknown => "Chain_Type_Unknown"@,
            LedgerError::PendingRecordMissing => "Pending_Record_Missing"@,
            LedgerError::PendingStreamMissing => "Pending_Stream_Missing"@,
            LedgerError::UserIndexMissing => "User_Index_Missing"@,
            LedgerError::IndexedStreamMissing => "Indexed_Stream_Missing"@,
        }
    }

    /// The kind of this failure.
    pub fn kind(&self) -> (k: ErrorKind)
        ensures
            k == self.kind_of(),
    {
        match self {
            LedgerError::InvalidOwner | LedgerError::NotAuthorized | LedgerError::InvalidCaller =>
                ErrorKind::Unauthorized,
            LedgerError::OwnerNotSet
            | LedgerError::StreamNotFound
            | LedgerError::RemoteContractNotFound
            | LedgerError::VersionNotSet => ErrorKind::NotFound,
            LedgerError::InvalidAddress
            | LedgerError::InvalidFund
            | LedgerError::RateTooLow
            | LedgerError::StartTimeInPast
            | LedgerError::InvalidChainId
            | LedgerError::StreamNotStarted
            | LedgerError::AlreadyWhitelisted
            | LedgerError::NotWhitelisted
            | LedgerError::WrongContract
            | LedgerError::NewerVersion
            | LedgerError::UnknownReplyId(_)
            | LedgerError::PayloadTooLarge => ErrorKind::InvalidInput,
            LedgerError::InsufficientBalance => ErrorKind::InsufficientBalance,
            LedgerError::AlreadyPending => ErrorKind::AlreadyPending,
            LedgerError::DstChainNotSupported => ErrorKind::DstChainNotSupported,
            LedgerError::DecodingFailure => ErrorKind::DecodingFailure,
            LedgerError::Overflow
            | LedgerError::GasPriceUnavailable
            | LedgerError::ChainTypeUnknown
            | LedgerError::PendingRecordMissing
            | LedgerError::PendingStreamMissing
            | LedgerError::UserIndexMissing
            | LedgerError::IndexedStreamMissing => ErrorKind::Fatal,
        }
    }

    /// Whether this failure reports broken state rather than a bad request.
    pub fn is_fatal(&self) -> (fatal: bool)
        ensures
            fatal == (self.kind_of() == ErrorKind::Fatal),
    {
        self.kind() == ErrorKind::Fatal
    }

    /// The text that describes this failure to a person.
    pub fn message(&self) -> (text: String)
        ensures
            text@ == self.message_text(),
    {
        if let LedgerError::UnknownReplyId(id) = self {
            return String::from_str("Unknown reply id: ").concat(decimal(*id).as_str());
        }
        let literal: &'static str = match self {
            LedgerError::OwnerNotSet => "Owner_Not_Set",
            LedgerError::InvalidOwner => "Auth: Invalid Owner",
            LedgerError::NotAuthorized => "Not_Authorized",
            LedgerError::InvalidCaller => "Auth: Invalid Caller",
            LedgerError::InvalidAddress => "Invalid_Address",
            LedgerError::InvalidFund => "Invalid_Fund",
            LedgerError::RateTooLow => "Pay_Per_Month Should Be Greater than 2592000",
            LedgerError::StartTimeInPast => "Start_Time_Should'be_In_Past",
            LedgerError::InvalidChainId => "Invalid_ChainId_Passed!!",
            LedgerError::StreamNotFound => "Stream_Not_Found",
            LedgerError::StreamNotStarted => "Stream_Not_Started",
            LedgerError::RemoteContractNotFound => "Remote_Contract_Not_Found",
            LedgerError::VersionNotSet => "Version_Not_Set",
            LedgerError::InsufficientBalance => "Insufficient_Balance",
            LedgerError::AlreadyPending => "Last_Request_Still_Pending_Wait!!",
            LedgerError::DstChainNotSupported => "Dst_Chain_Not_Supported",
            LedgerError::AlreadyWhitelisted => "Already_WhiteListed",
            LedgerError::NotWhitelisted => "Not_WhiteListed",
            LedgerError::WrongContract => "Can only upgrade from same type",
            LedgerError::NewerVersion => "Cannot upgrade from a newer version",
            LedgerError::UnknownReplyId(_) => "Unknown reply id: ",
            LedgerError::DecodingFailure => "Decoding_Failure",
            LedgerError::PayloadTooLarge => "Payload_Too_Large",
            LedgerError::Overflow => "Overflow",
            LedgerError::GasPriceUnavailable => "Gas_Price_Unavailable",
            LedgerError::ChainTypeUnknown => "Chain_Type_Unknown",
            LedgerError::PendingRecordMissing => "Pending_Record_Missing",
            LedgerError::PendingStreamMissing => "Pending_Stream_Missing",
            LedgerError::UserIndexMissing => "User_Index_Missing",
            LedgerError::IndexedStreamMissing => "Indexed_Stream_Missing",
        };
        String::from_str(literal)
    }
}

} // verus!
