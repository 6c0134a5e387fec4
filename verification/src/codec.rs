//! The command codec: which opcode stands for which kind of command, which
//! prefix opens a frame, and the encoding of a command under both.
//!
//! Controllers of this family differ in the prefix and in some opcodes, so
//! neither is fixed here. `Codec::sp105e` is the codec of the SP105E.

use vstd::prelude::*;

use crate::commands::{Command, Kind, COMMAND_BUF_LENGTH, COMMAND_PREFIX, KIND_COUNT};
use crate::error::ProtocolError;

verus! {

/// An opcode for every kind of command.
#[derive(PartialEq, Eq, Clone, Copy, Debug)]
pub struct Opcodes {
    table: [u8; KIND_COUNT],
}

impl Opcodes {
    /// The opcode of a kind.
    pub closed spec fn of(self, kind: Kind) -> u8 {
        self.table[kind.index_of()]
    }

    /// Whether every opcode stands for one kind only.
    pub open spec fn distinct(self) -> bool {
        forall|a: Kind, b: Kind| #[trigger] self.of(a) == #[trigger] self.of(b) ==> a == b
    }

    /// The opcodes of the SP105E.
    pub fn standard() -> (opcodes: Opcodes)
        ensures
            forall|kind: Kind| #[trigger] opcodes.of(kind) == kind.standard_opcode(),
            opcodes.distinct(),
    {
        let opcodes = Opcodes {
            table: [
                0xD5,
                0x10,
                0xAA,
                0x2D,
                0x3C,
                0x1C,
                0x12,
                0x18,
                0x36,
                0x3B,
                0x56,
                0x2C,
                0x1E,
                0x03,
                0x09,
                0x2A,
                0x28,
            ],
        };
        assert forall|kind: Kind| #[trigger] opcodes.of(kind) == kind.standard_opcode() by {
            kind.lemma_at_index();
        }
        assert forall|a: Kind, b: Kind| #[trigger]
            opcodes.of(a) == #[trigger] opcodes.of(b) implies a == b by {
            a.lemma_standard_opcodes_distinct(b);
        }
        opcodes
    }

    /// The same opcodes but for one kind, which gets the opcode given.
    pub fn with(self, kind: Kind, opcode: u8) -> (opcodes: Opcodes)
        ensures
            forall|other: Kind| #[trigger]
                opcodes.of(other) == (if other == kind {
                    opcode
                } else {
                    self.of(other)
                }),
    {
        let mut table = self.table;
        table[kind.index()] = opcode;
        let opcodes = Opcodes { table };
        assert forall|other: Kind| #[trigger]
            opcodes.of(other) == if other == kind {
                opcode
            } else {
                self.of(other)
            } by {
            other.lemma_at_index();
            kind.lemma_at_index();
        }
        opcodes
    }

    /// The opcode of a kind.
    pub fn get(&self, kind: Kind) -> (opcode: u8)
        ensures
            opcode == self.of(kind),
    {
        self.table[kind.index()]
    }

    /// Whether every opcode stands for one kind only.
    pub fn is_distinct(&self) -> (distinct: bool)
        ensures
            distinct == self.distinct(),
    {
        let mut i: usize = 0;
        while i < KIND_COUNT
            invariant
                i <= KIND_COUNT,
                forall|a: int, b: int|
                    0 <= a < i && a < b < KIND_COUNT ==> self.table[a] != self.table[b],
            decreases KIND_COUNT - i,
        {
            let mut j: usize = i + 1;
            while j < KIND_COUNT
                invariant
                    i < j <= KIND_COUNT,
                    forall|b: int| i < b < j ==> self.table[i as int] != self.table[b],
                decreases KIND_COUNT - j,
            {
                if self.table[i] == self.table[j] {
                    proof {
                        Kind::lemma_index_at(i as int);
                        Kind::lemma_index_at(j as int);
                        assert(self.of(Kind::at(i as int)) == self.of(Kind::at(j as int)));
                    }
                    return false;
                }
                j += 1;
            }
            i += 1;
        }
        assert forall|a: Kind, b: Kind| #[trigger] self.of(a) == #[trigger] self.of(b) implies a
            == b by {
            a.lemma_at_index();
            b.lemma_at_index();
        }
        true
    }
}

/// The command codec of one controller family.
#[derive(PartialEq, Eq, Clone, Copy, Debug)]
pub struct Codec {
    prefix: u8,
    opcodes: Opcodes,
}

impl Codec {
    /// The first byte of every frame.
    pub closed spec fn prefix_of(self) -> u8 {
        self.prefix
    }

    /// The opcode of every kind of command.
    pub closed spec fn opcodes_of(self) -> Opcodes {
        self.opcodes
    }

    /// What holds of every codec: no opcode stands for two kinds of
    /// command.
    pub open spec fn wf(self) -> bool {
        self.opcodes_of().distinct()
    }

    /// Every codec is well formed.
    #[verifier::type_invariant]
    closed spec fn well_formed(self) -> bool {
        self.wf()
    }

    /// Whether the codec is that of the SP105E: the prefix 0x38 and the
    /// standard opcodes.
    pub open spec fn is_sp105e(self) -> bool {
        &&& self.prefix_of() == COMMAND_PREFIX
        &&& forall|kind: Kind| #[trigger] self.opcodes_of().of(kind) == kind.standard_opcode()
    }

    /// The last byte of the frame of a command.
    pub open spec fn opcode_of(self, command: Command) -> u8 {
        self.opcodes_of().of(command.kind_of())
    }

    /// The frame of a command: the prefix, the three payload bytes, the
    /// opcode.
    pub open spec fn frame_of(self, command: Command) -> [u8; 5] {
        command.frame_of(self.prefix_of(), self.opcode_of(command))
    }

    /// What a command encodes to: its frame if the controller accepts what
    /// it carries, and otherwise the error `OutOfRange`.
    pub open spec fn encoded(self, command: Command) -> Result<[u8; 5], ProtocolError> {
        if command.in_range() {
            Ok(self.frame_of(command))
        } else {
            Err(ProtocolError::OutOfRange)
        }
    }

    /// The codec with the given prefix and opcodes, unless an opcode stands
    /// for two kinds of command.
    pub fn new(prefix: u8, opcodes: Opcodes) -> (codec: Option<Codec>)
        ensures
            codec is Some <==> opcodes.distinct(),
            codec matches Some(c) ==> c.prefix_of() == prefix && c.opcodes_of() == opcodes
                && c.wf(),
    {
        if opcodes.is_distinct() {
            Some(Codec { prefix, opcodes })
        } else {
            None
        }
    }

    /// The codec of the SP105E: the prefix 0x38 and the standard opcodes.
    pub fn sp105e() -> (codec: Codec)
        ensures
            codec.is_sp105e(),
            codec.wf(),
    {
        Codec { prefix: COMMAND_PREFIX, opcodes: Opcodes::standard() }
    }

    /// The first byte of every frame.
    pub fn prefix(&self) -> (prefix: u8)
        ensures
            prefix == self.prefix_of(),
    {
        self.prefix
    }

    /// The opcode of every kind of command.
    pub fn opcodes(&self) -> (opcodes: Opcodes)
        ensures
            opcodes == self.opcodes_of(),
            opcodes.distinct(),
    {
        proof {
            use_type_invariant(self);
        }
        self.opcodes
    }

    /// Encodes a command. A pixel count outside 1 to 2048 and an animation
    /// index above 200 are refused with `OutOfRange`; every other command
    /// gives its frame.
    pub fn encode(&self, command: &Command) -> (frame: Result<
        [u8; COMMAND_BUF_LENGTH],
        ProtocolError,
    >)
        ensures
            frame == self.encoded(*command),
    {
        if !command.is_in_range() {
            return Err(ProtocolError::OutOfRange);
        }
        let payload = command.payload();
        let frame: [u8; COMMAND_BUF_LENGTH] = [
            self.prefix,
            payload[0],
            payload[1],
            payload[2],
            self.opcodes.get(command.kind()),
        ];
        assert(frame =~= self.frame_of(*command));
        Ok(frame)
    }
}

/// A command that carries nothing is encoded as the prefix, three zero
/// bytes and its opcode, and is never refused.
pub proof fn lemma_bare_command_frame(codec: Codec, command: Command)
    requires
        command.is_bare(),
    ensures
        codec.encoded(command) == Ok::<[u8; 5], ProtocolError>(
            [codec.prefix_of(), 0u8, 0u8, 0u8, codec.opcode_of(command)],
        ),
{
    assert(codec.frame_of(command) =~= [
        codec.prefix_of(),
        0u8,
        0u8,
        0u8,
        codec.opcode_of(command),
    ]);
}

/// A command the controller accepts is never refused, and its frame opens
/// with the prefix of the codec and closes with the opcode of its kind. A
/// command the controller does not accept is always refused.
pub proof fn lemma_encode_total_on_range(codec: Codec, command: Command)
    ensures
        command.in_range() <==> codec.encoded(command) is Ok,
        codec.encoded(command) matches Ok(frame) ==> frame[0] == codec.prefix_of() && frame[4]
            == codec.opcode_of(command),
        !command.in_range() ==> codec.encoded(command) == Err::<[u8; 5], ProtocolError>(
            ProtocolError::OutOfRange,
        ),
{
}

/// On the SP105E a command the controller accepts is encoded to the
/// frame that `Command::buf` gives: the prefix 0x38, the payload, and the
/// opcode that `Command::discriminant` gives.
pub proof fn lemma_sp105e_frame(codec: Codec, command: Command)
    requires
        codec.is_sp105e(),
        command.in_range(),
    ensures
        codec.encoded(command) == Ok::<[u8; 5], ProtocolError>(
            command.frame_of(COMMAND_PREFIX, command.kind_of().standard_opcode()),
        ),
        codec.encoded(command).unwrap()[4] == command.kind_of().standard_opcode(),
{
}

/// The last byte of a frame tells the kind of its command: under one
/// codec, two commands whose frames close with the same byte are of the
/// same kind.
pub proof fn lemma_opcode_identifies_kind(codec: Codec, first: Command, second: Command)
    requires
        codec.wf(),
        codec.frame_of(first)[4] == codec.frame_of(second)[4],
    ensures
        first.kind_of() == second.kind_of(),
{
    assert(codec.opcodes_of().of(first.kind_of()) == codec.opcodes_of().of(second.kind_of()));
}

/// Nothing of a command is lost in its frame: under one codec, two
/// commands with the same frame are the same command.
pub proof fn lemma_frame_identifies_command(codec: Codec, first: Command, second: Command)
    requires
        codec.wf(),
        codec.frame_of(first) == codec.frame_of(second),
    ensures
        first == second,
{
    lemma_opcode_identifies_kind(codec, first, second);
    let a = codec.frame_of(first);
    let b = codec.frame_of(second);
    assert(a[1] == b[1] && a[2] == b[2] && a[3] == b[3]);
    match first {
        Command::SetPixels(x) => {
            let y = second->SetPixels_0;
            assert(x / 256 == y / 256 && x % 256 == y % 256);
        },
        Command::SetColorOrder(x) => {
            x.lemma_at_ordinal();
            second->SetColorOrder_0.lemma_at_ordinal();
        },
        Command::SetPixelType(x) => {
            x.lemma_at_ordinal();
            second->SetPixelType_0.lemma_at_ordinal();
        },
        Command::Color(x) => {
            assert(x =~= second->Color_0);
        },
        _ => {},
    }
}

} // verus!
