//! Control of a network interface's administrative up/down flag.
//!
//! The kernel keeps one flag word per interface. Bringing an interface down
//! clears the up bit of that word and nothing else; allowing it up sets the
//! bit again. This module decides what is written, given what was read; the
//! system calls that read and write the word are made by whoever drives it,
//! one operation at a time.

use vstd::prelude::*;
use vstd::string::StringExecFns;
use vstd::string::StringSliceAdditionalSpecFns;
use vstd::utf8::encode_utf8;

verus! {

/// The bit of an interface's flag word that says "administratively up".
pub const IFF_UP: i16 = 0x1;

/// The error number with which the kernel answers for an interface that does
/// not exist.
pub const ENXIO: i32 = 6;

/// The size of the name field of an interface request, terminator included.
pub const IFNAMSIZ: usize = 16;

/// The greatest length of an interface name, in bytes.
pub const MAX_NAME_LEN: usize = 15;

/// Whether a flag word has the up bit set.
pub open spec fn flag_is_up(flags: i16) -> bool {
    flags & IFF_UP != 0
}

/// The flag word with the up bit cleared and every other bit kept.
pub open spec fn flags_down(flags: i16) -> i16 {
    flags & !IFF_UP
}

/// The flag word with the up bit set and every other bit kept.
pub open spec fn flags_up(flags: i16) -> i16 {
    flags | IFF_UP
}

/// A name that the kernel takes for an interface: at most 15 bytes, none of
/// them zero.
pub open spec fn valid_name(bytes: Seq<u8>) -> bool {
    &&& bytes.len() <= MAX_NAME_LEN
    &&& forall|i: int| 0 <= i < bytes.len() ==> #[trigger] bytes[i] != 0
}

/// An error of the operating system: its number and its description.
#[derive(Debug, Clone)]
pub struct OsError {
    /// The error number.
    pub code: i32,
    /// The system's description of the error.
    pub message: String,
}

/// Errors of interface control.
#[derive(Debug)]
pub enum InterfaceError {
    /// No socket could be created to reach the interface through.
    SocketCreation(OsError),
    /// The interface name is longer than 15 bytes.
    NameTooLong(String),
    /// The interface name holds a zero byte.
    InvalidName(String),
    /// The kernel refused the request.
    Ioctl(OsError),
    /// There is no interface of that name.
    NotFound(String),
}

impl InterfaceError {
    /// The message that belongs to the error.
    pub open spec fn message(self) -> Seq<char> {
        match self {
            InterfaceError::SocketCreation(error) => "failed to create socket: "@ + error.message@,
            InterfaceError::NameTooLong(name) => "interface name too long (max 15 characters): "@
                + name@,
            InterfaceError::InvalidName(name) => "interface name contains null byte: "@ + name@,
            InterfaceError::Ioctl(error) => "ioctl failed: "@ + error.message@,
            InterfaceError::NotFound(name) => "interface not found: "@ + name@,
        }
    }

    /// The message of the error.
    pub fn to_string(&self) -> (text: String)
        ensures
            text@ == self.message(),
    {
        match self {
            InterfaceError::SocketCreation(error) => "failed to create socket: ".to_owned().concat(
                error.message.as_str(),
            ),
            InterfaceError::NameTooLong(name) => {
                "interface name too long (max 15 characters): ".to_owned().concat(name.as_str())
            },
            InterfaceError::InvalidName(name) => "interface name contains null byte: ".to_owned()
                .concat(name.as_str()),
            InterfaceError::Ioctl(error) => "ioctl failed: ".to_owned().concat(
                error.message.as_str(),
            ),
            InterfaceError::NotFound(name) => "interface not found: ".to_owned().concat(
                name.as_str(),
            ),
        }
    }

    /// The error says that the interface does not exist.
    pub open spec fn is_not_found(self) -> bool {
        self is NotFound
    }
}

/// The name of the managed interface, checked once: at most 15 bytes, none of
/// them zero.
#[derive(Debug)]
pub struct InterfaceHandle {
    name: String,
}

impl View for InterfaceHandle {
    type V = Seq<char>;

    closed spec fn view(&self) -> Seq<char> {
        self.name@
    }
}

impl InterfaceHandle {
    #[verifier::type_invariant]
    spec fn name_is_valid(self) -> bool {
        valid_name(encode_utf8(self.name@))
    }

    /// The name. It is valid, as every handle's name is.
    pub fn name(&self) -> (name: &str)
        ensures
            name@ == self@,
            valid_name(encode_utf8(self@)),
    {
        proof {
            use_type_invariant(self);
        }
        self.name.as_str()
    }
}

/// What an operation asks to be done with the flag word it was given.
#[derive(Clone, Copy, Debug, PartialEq, Eq, Structural)]
pub enum FlagUpdate {
    /// The word is as it should be: nothing is written.
    Keep,
    /// This word is written back.
    Write(i16),
}

impl FlagUpdate {
    /// The flag word of the interface once the update is carried out on an
    /// interface whose word was `flags`.
    pub open spec fn applied_to(self, flags: i16) -> i16 {
        match self {
            FlagUpdate::Keep => flags,
            FlagUpdate::Write(word) => word,
        }
    }
}

/// What bringing down asks for, on reading `flags`: nothing where the up bit
/// is clear already, else the word with only that bit cleared.
pub open spec fn bring_down_update(flags: i16) -> FlagUpdate {
    if flag_is_up(flags) {
        FlagUpdate::Write(flags_down(flags))
    } else {
        FlagUpdate::Keep
    }
}

/// What allowing up asks for, on reading `flags`: nothing where the up bit is
/// set already, else the word with only that bit set.
pub open spec fn allow_up_update(flags: i16) -> FlagUpdate {
    if flag_is_up(flags) {
        FlagUpdate::Keep
    } else {
        FlagUpdate::Write(flags_up(flags))
    }
}

/// Operations on a named interface's up/down flag.
///
/// Calls must not overlap: each operation reads the flag word and may write
/// it back, and two that interleave can lose an update.
pub trait InterfaceController: Send + Sync {
    /// Brings the interface down.
    fn bring_down(&self, name: &str) -> Result<(), InterfaceError>;

    /// Allows the interface to come back up.
    fn allow_up(&self, name: &str) -> Result<(), InterfaceError>;

    /// Whether the interface is up.
    fn is_up(&self, name: &str) -> Result<bool, InterfaceError>;
}

/// The interface controller of macOS: the decisions behind its three
/// operations, from the flag word read to the flag word written.
#[derive(Debug, Clone, Copy)]
pub struct MacOsInterfaceController;

impl MacOsInterfaceController {
    /// A new controller.
    pub fn new() -> (controller: Self)
        ensures
            controller == MacOsInterfaceController,
    {
        MacOsInterfaceController
    }

    /// Checks an interface name before any system call is made with it. A
    /// name of more than 15 bytes is too long; a shorter one that holds a
    /// zero byte is invalid; any other name gives a handle.
    pub fn validate_name(name: &str) -> (checked: Result<InterfaceHandle, InterfaceError>)
        ensures
            match checked {
                Ok(handle) => valid_name(encode_utf8(name@)) && handle@ == name@,
                Err(InterfaceError::NameTooLong(n)) => encode_utf8(name@).len() > MAX_NAME_LEN
                    && n@ == name@,
                Err(InterfaceError::InvalidName(n)) => encode_utf8(name@).len() <= MAX_NAME_LEN
                    && !valid_name(encode_utf8(name@)) && n@ == name@,
                Err(_) => false,
            },
    {
        let bytes = name.as_bytes();
        if bytes.len() > MAX_NAME_LEN {
            return Err(InterfaceError::NameTooLong(name.to_owned()));
        }
        let mut i: usize = 0;
        while i < bytes.len()
            invariant
                i <= bytes@.len() <= MAX_NAME_LEN,
                bytes@ == encode_utf8(name@),
                forall|j: int| 0 <= j < i ==> #[trigger] bytes@[j] != 0,
            decreases bytes@.len() - i,
        {
            if bytes[i] == 0 {
                return Err(InterfaceError::InvalidName(name.to_owned()));
            }
            i = i + 1;
        }
        Ok(InterfaceHandle { name: name.to_owned() })
    }

    /// The error for a flag request that the kernel refused with `error`:
    /// "not found" where the kernel says that there is no such interface,
    /// else the refusal as it came.
    pub fn ioctl_error(name: &str, error: OsError) -> (failure: InterfaceError)
        ensures
            error.code == ENXIO ==> (failure matches InterfaceError::NotFound(n) && n@ == name@),
            error.code != ENXIO ==> failure == InterfaceError::Ioctl(error),
    {
        if error.code == ENXIO {
            InterfaceError::NotFound(name.to_owned())
        } else {
            InterfaceError::Ioctl(error)
        }
    }

    /// Bringing the interface down, once its flag word has been read:
    /// `read` is the word, or the error that reading gave. An interface that
    /// is down stays untouched; one that is up gets its word written back
    /// with the up bit cleared and all other bits as they were. Any error of
    /// reading, a missing interface too, is the operation's error.
    ///
    /// Once the update is carried out the interface is down and its word
    /// agrees with the word read on every other bit, so that bringing it
    /// down again finds nothing to write.
    pub fn bring_down(&self, read: Result<i16, InterfaceError>) -> (plan: Result<
        FlagUpdate,
        InterfaceError,
    >)
        ensures
            match read {
                Ok(flags) => {
                    &&& plan == Ok::<FlagUpdate, InterfaceError>(bring_down_update(flags))
                    &&& bring_down_update(flags).applied_to(flags) == flags_down(flags)
                    &&& !flag_is_up(flags_down(flags))
                    &&& flags_down(flags_down(flags)) == flags_down(flags)
                },
                Err(error) => plan == Err::<FlagUpdate, InterfaceError>(error),
            },
    {
        match read {
            Ok(flags) => {
                proof {
                    lemma_bring_down_idempotent(flags);
                    lemma_updates_touch_only_up_bit(flags);
                }
                if flags & IFF_UP == 0 {
                    Ok(FlagUpdate::Keep)
                } else {
                    Ok(FlagUpdate::Write(flags & !IFF_UP))
                }
            },
            Err(error) => Err(error),
        }
    }

    /// Allowing the interface up, once its flag word has been read. An
    /// interface that is up stays untouched; one that is down gets its word
    /// written back with the up bit set and all other bits as they were. A
    /// missing interface is no error here: there is nothing to release, and
    /// nothing is written. Any other error of reading is the operation's
    /// error.
    ///
    /// Once the update is carried out the interface is up and its word
    /// agrees with the word read on every other bit, so that allowing it up
    /// again finds nothing to write.
    pub fn allow_up(&self, read: Result<i16, InterfaceError>) -> (plan: Result<
        FlagUpdate,
        InterfaceError,
    >)
        ensures
            match read {
                Ok(flags) => {
                    &&& plan == Ok::<FlagUpdate, InterfaceError>(allow_up_update(flags))
                    &&& allow_up_update(flags).applied_to(flags) == flags_up(flags)
                    &&& flag_is_up(flags_up(flags))
                    &&& flags_down(flags_up(flags)) == flags_down(flags)
                },
                Err(error) => if error.is_not_found() {
                    plan == Ok::<FlagUpdate, InterfaceError>(FlagUpdate::Keep)
                } else {
                    plan == Err::<FlagUpdate, InterfaceError>(error)
                },
            },
    {
        match read {
            Ok(flags) => {
                proof {
                    lemma_allow_up_idempotent(flags);
                    lemma_updates_touch_only_up_bit(flags);
                }
                if flags & IFF_UP != 0 {
                    Ok(FlagUpdate::Keep)
                } else {
                    Ok(FlagUpdate::Write(flags | IFF_UP))
                }
            },
            Err(InterfaceError::NotFound(_)) => Ok(FlagUpdate::Keep),
            Err(error) => Err(error),
        }
    }

    /// Whether the interface is up, once its flag word has been read: the up
    /// bit of the word. Any error of reading, a missing interface too, is the
    /// operation's error.
    pub fn is_up(&self, read: Result<i16, InterfaceError>) -> (up: Result<bool, InterfaceError>)
        ensures
            match read {
                Ok(flags) => up == Ok::<bool, InterfaceError>(flag_is_up(flags)),
                Err(error) => up == Err::<bool, InterfaceError>(error),
            },
    {
        match read {
            Ok(flags) => Ok(flags & IFF_UP != 0),
            Err(error) => Err(error),
        }
    }
}

impl Default for MacOsInterfaceController {
    fn default() -> (controller: Self)
        ensures
            controller == MacOsInterfaceController,
    {
        MacOsInterfaceController::new()
    }
}

/// The name field of a request for the interface called `name`: the name's
/// bytes, then zeros up to the field's size.
pub open spec fn padded_name(name: Seq<u8>) -> Seq<u8> {
    Seq::new(
        IFNAMSIZ as nat,
        |i: int|
            if i < name.len() {
                name[i]
            } else {
                0u8
            },
    )
}

/// A flag request as the kernel takes it: the interface's name in a field of
/// fixed size, and the flag word.
#[derive(Debug, Clone, Copy)]
pub struct IfReq {
    /// The interface's name, zero-terminated and zero-padded.
    pub name: [u8; 16],
    /// The flag word: what to write, or where the kernel puts what it read.
    pub flags: i16,
}

impl IfReq {
    /// A request for the interface that `handle` names, with an empty flag
    /// word. The name fits its field and leaves room for the terminator,
    /// since a handle's name has at most 15 bytes.
    pub fn new(handle: &InterfaceHandle) -> (request: IfReq)
        ensures
            request.name@ == padded_name(encode_utf8(handle@)),
            request.flags == 0,
    {
        let bytes = handle.name().as_bytes();
        let mut name: [u8; 16] = [0u8; 16];
        let mut i: usize = 0;
        while i < bytes.len()
            invariant
                i <= bytes@.len() <= MAX_NAME_LEN,
                forall|j: int| 0 <= j < i ==> name@[j] == bytes@[j],
                forall|j: int| i <= j < IFNAMSIZ ==> name@[j] == 0,
            decreases bytes@.len() - i,
        {
            name.set(i, bytes[i]);
            i = i + 1;
        }
        assert(name@ =~= padded_name(bytes@));
        IfReq { name, flags: 0 }
    }

    /// The same request carrying the flag word `flags`.
    pub fn with_flags(self, flags: i16) -> (request: IfReq)
        ensures
            request.name == self.name,
            request.flags == flags,
    {
        IfReq { name: self.name, flags }
    }
}

/// Bringing down is idempotent: carried out on a flag word `flags`, it leaves
/// the word with the up bit cleared; asked again of that word, it finds
/// nothing to do, so that twice leaves what once leaves.
pub proof fn lemma_bring_down_idempotent(flags: i16)
    ensures
        bring_down_update(flags).applied_to(flags) == flags_down(flags),
        !flag_is_up(flags_down(flags)),
        bring_down_update(flags_down(flags)) == FlagUpdate::Keep,
        bring_down_update(flags_down(flags)).applied_to(flags_down(flags))
            == bring_down_update(flags).applied_to(flags),
{
    assert(flags & 1i16 == 0 ==> flags & !1i16 == flags) by (bit_vector);
    assert((flags & !1i16) & 1i16 == 0) by (bit_vector);
}

/// Allowing up is idempotent: carried out on a flag word `flags`, it leaves
/// the word with the up bit set; asked again of that word, it finds nothing
/// to do, so that twice leaves what once leaves.
pub proof fn lemma_allow_up_idempotent(flags: i16)
    ensures
        allow_up_update(flags).applied_to(flags) == flags_up(flags),
        flag_is_up(flags_up(flags)),
        allow_up_update(flags_up(flags)) == FlagUpdate::Keep,
        allow_up_update(flags_up(flags)).applied_to(flags_up(flags)) == allow_up_update(
            flags,
        ).applied_to(flags),
{
    assert(flags & 1i16 != 0 ==> flags | 1i16 == flags) by (bit_vector);
    assert((flags | 1i16) & 1i16 != 0) by (bit_vector);
}

/// Neither operation touches another bit than the up bit: whatever is
/// written agrees with what was read on every bit but that one.
pub proof fn lemma_updates_touch_only_up_bit(flags: i16)
    ensures
        flags_down(bring_down_update(flags).applied_to(flags)) == flags_down(flags),
        flags_down(allow_up_update(flags).applied_to(flags)) == flags_down(flags),
{
    assert((flags & !1i16) & !1i16 == flags & !1i16) by (bit_vector);
    assert((flags | 1i16) & !1i16 == flags & !1i16) by (bit_vector);
}

/// Flag preservation: bringing an interface down and then allowing it up
/// leaves every flag but the up flag, bit for bit, as it was before, and the
/// up flag set. An interface that was up before thus ends with the very word
/// it had.
pub proof fn lemma_down_then_up_preserves_flags(flags: i16)
    ensures
        ({
            let down = bring_down_update(flags).applied_to(flags);
            let up = allow_up_update(down).applied_to(down);
            &&& flags_down(up) == flags_down(flags)
            &&& flag_is_up(up)
            &&& up == flags_up(flags)
            &&& flag_is_up(flags) ==> up == flags
        }),
{
    lemma_bring_down_idempotent(flags);
    lemma_allow_up_idempotent(flags_down(flags));
    assert((flags & !1i16) | 1i16 == flags | 1i16) by (bit_vector);
    assert((flags | 1i16) & !1i16 == flags & !1i16) by (bit_vector);
    assert(flags & 1i16 != 0 ==> flags | 1i16 == flags) by (bit_vector);
}

} // verus!
