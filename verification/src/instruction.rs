//! The instruction the program understands, its arguments, and their encoding: a tag byte,
//! then the fields in order, integers little-endian, a text as its length in four bytes
//! followed by its UTF-8 bytes, an optional amount as a presence byte followed by the amount.

use vstd::prelude::*;
use vstd::bytes::{
    lemma_auto_spec_u32_to_from_le_bytes, lemma_auto_spec_u64_to_from_le_bytes,
    spec_u32_from_le_bytes, spec_u32_to_le_bytes, spec_u64_from_le_bytes, spec_u64_to_le_bytes,
    u32_from_le_bytes, u32_to_le_bytes, u64_from_le_bytes, u64_to_le_bytes,
};
use vstd::slice::slice_subrange;
use vstd::utf8::{
    decode_utf8, decode_utf8_encode_utf8, encode_utf8, encode_utf8_decode_utf8,
    encode_utf8_valid_utf8, valid_utf8,
};
use crate::error::ProgramError;

verus! {

/// Arguments of `Init`, fixed for the whole invocation.
#[derive(Clone, Debug, PartialEq)]
pub struct InitCardArgs {
    /// The byte that makes the receipt's derived address valid.
    pub bump: u8,
    /// The payment's reference, in base58; its bytes are a seed of the receipt's address.
    pub reference: String,
    /// Free text for indexers; not looked at.
    pub memo: String,
    /// What the payer gets back, in the source asset.
    pub network_fee: u64,
    /// The principal, in the destination asset.
    pub amount: u64,
    /// What the platform gets, in the destination asset.
    pub platform_fee: Option<u64>,
    /// What the referrer gets, in the destination asset.
    pub referrer_fee: Option<u64>,
}

/// What `InitCardArgs` stand for.
pub struct InitArgsView {
    pub bump: u8,
    pub reference: Seq<char>,
    pub memo: Seq<char>,
    pub network_fee: u64,
    pub amount: u64,
    pub platform_fee: Option<u64>,
    pub referrer_fee: Option<u64>,
}

impl View for InitCardArgs {
    type V = InitArgsView;

    open spec fn view(&self) -> InitArgsView {
        InitArgsView {
            bump: self.bump,
            reference: self.reference@,
            memo: self.memo@,
            network_fee: self.network_fee,
            amount: self.amount,
            platform_fee: self.platform_fee,
            referrer_fee: self.referrer_fee,
        }
    }
}

/// The instructions of the program.
#[derive(Clone, Debug, PartialEq)]
pub enum CardInstruction {
    /// Pay the fees, the principal and the network fee, then record the receipt.
    Init(InitCardArgs),
}

/// What a `CardInstruction` stands for.
pub enum CardInstructionView {
    Init(InitArgsView),
}

impl View for CardInstruction {
    type V = CardInstructionView;

    open spec fn view(&self) -> CardInstructionView {
        match *self {
            CardInstruction::Init(args) => CardInstructionView::Init(args@),
        }
    }
}

/// The encoding of a text: the number of its UTF-8 bytes, then those bytes.
pub open spec fn text_bytes(text: Seq<char>) -> Seq<u8> {
    spec_u32_to_le_bytes(encode_utf8(text).len() as u32) + encode_utf8(text)
}

/// The encoding of an optional amount.
pub open spec fn option_bytes(amount: Option<u64>) -> Seq<u8> {
    match amount {
        None => seq![0u8],
        Some(amount) => seq![1u8] + spec_u64_to_le_bytes(amount),
    }
}

/// The encoding of the arguments.
pub open spec fn args_bytes(args: InitArgsView) -> Seq<u8> {
    seq![args.bump] + text_bytes(args.reference) + text_bytes(args.memo) + spec_u64_to_le_bytes(
        args.network_fee,
    ) + spec_u64_to_le_bytes(args.amount) + option_bytes(args.platform_fee) + option_bytes(
        args.referrer_fee,
    )
}

/// The encoding of an instruction: its tag, then its arguments.
pub open spec fn instruction_bytes(instruction: CardInstructionView) -> Seq<u8> {
    match instruction {
        CardInstructionView::Init(args) => seq![0u8] + args_bytes(args),
    }
}

/// Whether the arguments can be encoded: the length of each text fits in four bytes.
pub open spec fn encodable(instruction: CardInstructionView) -> bool {
    match instruction {
        CardInstructionView::Init(args) => encode_utf8(args.reference).len() <= u32::MAX
            && encode_utf8(args.memo).len() <= u32::MAX,
    }
}

/// The integer of four bytes at `at`, and where the next field starts.
pub open spec fn read_u32(data: Seq<u8>, at: int) -> Option<(u32, int)> {
    if 0 <= at && at + 4 <= data.len() {
        Some((spec_u32_from_le_bytes(data.subrange(at, at + 4)), at + 4))
    } else {
        None
    }
}

/// The integer of eight bytes at `at`, and where the next field starts.
pub open spec fn read_u64(data: Seq<u8>, at: int) -> Option<(u64, int)> {
    if 0 <= at && at + 8 <= data.len() {
        Some((spec_u64_from_le_bytes(data.subrange(at, at + 8)), at + 8))
    } else {
        None
    }
}

/// The text at `at`, and where the next field starts.
pub open spec fn read_text(data: Seq<u8>, at: int) -> Option<(Seq<char>, int)> {
    match read_u32(data, at) {
        None => None,
        Some((len, start)) => if start + len <= data.len() && valid_utf8(
            data.subrange(start, start + len),
        ) {
            Some((decode_utf8(data.subrange(start, start + len)), start + len))
        } else {
            None
        },
    }
}

/// The optional amount at `at`, and where the next field starts.
pub open spec fn read_option(data: Seq<u8>, at: int) -> Option<(Option<u64>, int)> {
    if 0 <= at < data.len() {
        if data[at] == 0 {
            Some((None, at + 1))
        } else if data[at] == 1 {
            match read_u64(data, at + 1) {
                None => None,
                Some((amount, next)) => Some((Some(amount), next)),
            }
        } else {
            None
        }
    } else {
        None
    }
}

/// The instruction that `data` encodes, if it encodes one: every field must be there, and
/// nothing may follow the last.
pub open spec fn decoded(data: Seq<u8>) -> Option<CardInstructionView> {
    if data.len() < 2 || data[0] != 0 {
        None
    } else {
        match read_text(data, 2) {
            None => None,
            Some((reference, at1)) => match read_text(data, at1) {
                None => None,
                Some((memo, at2)) => match read_u64(data, at2) {
                    None => None,
                    Some((network_fee, at3)) => match read_u64(data, at3) {
                        None => None,
                        Some((amount, at4)) => match read_option(data, at4) {
                            None => None,
                            Some((platform_fee, at5)) => match read_option(data, at5) {
                                None => None,
                                Some((referrer_fee, at6)) => if at6 == data.len() {
                                    Some(
                                        CardInstructionView::Init(
                                            InitArgsView {
                                                bump: data[1],
                                                reference,
                                                memo,
                                                network_fee,
                                                amount,
                                                platform_fee,
                                                referrer_fee,
                                            },
                                        ),
                                    )
                                } else {
                                    None
                                },
                            },
                        },
                    },
                },
            },
        }
    }
}

/// `core::str::Utf8Error`, the reason why bytes are not UTF-8.
#[verifier::external_type_specification]
#[verifier::external_body]
pub struct ExUtf8Error(core::str::Utf8Error);

/// `core::str::from_utf8` accepts exactly the bytes that are valid UTF-8, and returns the
/// text that they encode.
pub assume_specification[ core::str::from_utf8 ](v: &[u8]) -> (r: Result<
    &str,
    core::str::Utf8Error,
>)
    ensures
        (r is Ok) == valid_utf8(v@),
        r is Ok ==> r->Ok_0@ == decode_utf8(v@),
;

fn take_u32(data: &[u8], at: usize) -> (r: Option<(u32, usize)>)
    requires
        at <= data@.len(),
    ensures
        match (r, read_u32(data@, at as int)) {
            (Some((value, next)), Some((v, n))) => value == v && next == n,
            (None, None) => true,
            _ => false,
        },
{
    if data.len() - at < 4 {
        return None;
    }
    Some((u32_from_le_bytes(slice_subrange(data, at, at + 4)), at + 4))
}

fn take_u64(data: &[u8], at: usize) -> (r: Option<(u64, usize)>)
    requires
        at <= data@.len(),
    ensures
        match (r, read_u64(data@, at as int)) {
            (Some((value, next)), Some((v, n))) => value == v && next == n,
            (None, None) => true,
            _ => false,
        },
{
    if data.len() - at < 8 {
        return None;
    }
    Some((u64_from_le_bytes(slice_subrange(data, at, at + 8)), at + 8))
}

fn take_text(data: &[u8], at: usize) -> (r: Option<(String, usize)>)
    requires
        at <= data@.len(),
    ensures
        match (r, read_text(data@, at as int)) {
            (Some((text, next)), Some((t, n))) => text@ == t && next == n && next <= data@.len(),
            (None, None) => true,
            _ => false,
        },
{
    let (len, start) = match take_u32(data, at) {
        None => {
            return None;
        },
        Some(header) => header,
    };
    if data.len() - start < len as usize {
        return None;
    }
    match core::str::from_utf8(slice_subrange(data, start, start + len as usize)) {
        Err(_) => None,
        Ok(text) => Some((text.to_owned(), start + len as usize)),
    }
}

fn take_option(data: &[u8], at: usize) -> (r: Option<(Option<u64>, usize)>)
    requires
        at <= data@.len(),
    ensures
        match (r, read_option(data@, at as int)) {
            (Some((value, next)), Some((v, n))) => value == v && next == n && next <= data@.len(),
            (None, None) => true,
            _ => false,
        },
{
    if at >= data.len() {
        return None;
    }
    if data[at] == 0 {
        Some((None, at + 1))
    } else if data[at] == 1 {
        match take_u64(data, at + 1) {
            None => None,
            Some((amount, next)) => Some((Some(amount), next)),
        }
    } else {
        None
    }
}

impl CardInstruction {
    /// Decodes an instruction. Fails with `DecodeFailure` unless `data` is the encoding of
    /// an instruction, whole and with nothing after it.
    pub fn try_from_slice(data: &[u8]) -> (r: Result<CardInstruction, ProgramError>)
        ensures
            match r {
                Ok(instruction) => decoded(data@) == Some(instruction@),
                Err(e) => e == ProgramError::DecodeFailure && decoded(data@) is None,
            },
    {
        if data.len() < 2 || data[0] != 0 {
            return Err(ProgramError::DecodeFailure);
        }
        let bump = data[1];
        let (reference, at1) = match take_text(data, 2) {
            None => {
                return Err(ProgramError::DecodeFailure);
            },
            Some(field) => field,
        };
        let (memo, at2) = match take_text(data, at1) {
            None => {
                return Err(ProgramError::DecodeFailure);
            },
            Some(field) => field,
        };
        let (network_fee, at3) = match take_u64(data, at2) {
            None => {
                return Err(ProgramError::DecodeFailure);
            },
            Some(field) => field,
        };
        let (amount, at4) = match take_u64(data, at3) {
            None => {
                return Err(ProgramError::DecodeFailure);
            },
            Some(field) => field,
        };
        let (platform_fee, at5) = match take_option(data, at4) {
            None => {
                return Err(ProgramError::DecodeFailure);
            },
            Some(field) => field,
        };
        let (referrer_fee, at6) = match take_option(data, at5) {
            None => {
                return Err(ProgramError::DecodeFailure);
            },
            Some(field) => field,
        };
        if at6 != data.len() {
            return Err(ProgramError::DecodeFailure);
        }
        Ok(
            CardInstruction::Init(
                InitCardArgs { bump, reference, memo, network_fee, amount, platform_fee, referrer_fee },
            ),
        )
    }
}

fn put(out: &mut Vec<u8>, bytes: &[u8])
    ensures
        final(out)@ == old(out)@ + bytes@,
{
    let ghost before = out@;
    out.extend_from_slice(bytes);
    assert(out@ =~= before + bytes@);
}

fn put_option(out: &mut Vec<u8>, amount: Option<u64>)
    ensures
        final(out)@ == old(out)@ + option_bytes(amount),
{
    let ghost before = out@;
    match amount {
        None => {
            out.push(0);
            assert(out@ =~= before + option_bytes(amount));
        },
        Some(value) => {
            out.push(1);
            let bytes = u64_to_le_bytes(value);
            put(out, bytes.as_slice());
            assert(out@ =~= before + option_bytes(amount));
        },
    }
}

impl CardInstruction {
    /// Encodes the instruction. Fails with `DecodeFailure` when a text is too long for its
    /// length to fit in four bytes; such an instruction has no encoding.
    pub fn try_to_vec(&self) -> (r: Result<Vec<u8>, ProgramError>)
        ensures
            match r {
                Ok(bytes) => encodable(self@) && bytes@ == instruction_bytes(self@),
                Err(e) => e == ProgramError::DecodeFailure && !encodable(self@),
            },
    {
        match self {
            CardInstruction::Init(args) => {
                let reference = args.reference.as_str().as_bytes();
                let memo = args.memo.as_str().as_bytes();
                if reference.len() > 0xffff_ffff || memo.len() > 0xffff_ffff {
                    return Err(ProgramError::DecodeFailure);
                }
                let mut out: Vec<u8> = Vec::new();
                out.push(0);
                out.push(args.bump);
                let header = u32_to_le_bytes(reference.len() as u32);
                put(&mut out, header.as_slice());
                put(&mut out, reference);
                let header = u32_to_le_bytes(memo.len() as u32);
                put(&mut out, header.as_slice());
                put(&mut out, memo);
                let bytes = u64_to_le_bytes(args.network_fee);
                put(&mut out, bytes.as_slice());
                let bytes = u64_to_le_bytes(args.amount);
                put(&mut out, bytes.as_slice());
                put_option(&mut out, args.platform_fee);
                put_option(&mut out, args.referrer_fee);
                assert(out@ =~= instruction_bytes(self@));
                Ok(out)
            },
        }
    }
}

proof fn lemma_text_at(data: Seq<u8>, at: int, text: Seq<char>)
    requires
        0 <= at,
        at + text_bytes(text).len() <= data.len(),
        data.subrange(at, at + text_bytes(text).len()) == text_bytes(text),
        encode_utf8(text).len() <= u32::MAX,
    ensures
        read_text(data, at) == Some((text, at + text_bytes(text).len())),
{
    lemma_auto_spec_u32_to_from_le_bytes();
    let bytes = encode_utf8(text);
    let header = spec_u32_to_le_bytes(bytes.len() as u32);
    let field = data.subrange(at, at + text_bytes(text).len());
    assert(header.len() == 4);
    assert(data.subrange(at, at + 4) =~= field.subrange(0, 4));
    assert(field.subrange(0, 4) =~= header);
    assert(data.subrange(at + 4, at + 4 + bytes.len()) =~= field.subrange(4, 4 + bytes.len() as int));
    assert(field.subrange(4, 4 + bytes.len() as int) =~= bytes);
    encode_utf8_valid_utf8(text);
    encode_utf8_decode_utf8(text);
}

proof fn lemma_u64_at(data: Seq<u8>, at: int, value: u64)
    requires
        0 <= at,
        at + 8 <= data.len(),
        data.subrange(at, at + 8) == spec_u64_to_le_bytes(value),
    ensures
        read_u64(data, at) == Some((value, at + 8)),
{
    lemma_auto_spec_u64_to_from_le_bytes();
}

proof fn lemma_option_at(data: Seq<u8>, at: int, value: Option<u64>)
    requires
        0 <= at,
        at + option_bytes(value).len() <= data.len(),
        data.subrange(at, at + option_bytes(value).len()) == option_bytes(value),
    ensures
        read_option(data, at) == Some((value, at + option_bytes(value).len())),
{
    lemma_auto_spec_u64_to_from_le_bytes();
    let field = data.subrange(at, at + option_bytes(value).len());
    assert(data[at] == field[0]);
    match value {
        None => {},
        Some(amount) => {
            assert(data.subrange(at + 1, at + 9) =~= field.subrange(1, 9));
            assert(field.subrange(1, 9) =~= spec_u64_to_le_bytes(amount));
            lemma_u64_at(data, at + 1, amount);
        },
    }
}

proof fn lemma_text_read(data: Seq<u8>, at: int)
    ensures
        read_text(data, at) matches Some((text, next)) ==> {
            &&& 0 <= at && at + 4 <= next <= data.len()
            &&& text_bytes(text) == data.subrange(at, next)
            &&& encode_utf8(text).len() <= u32::MAX
        },
{
    if let Some((text, next)) = read_text(data, at) {
        lemma_auto_spec_u32_to_from_le_bytes();
        let len = spec_u32_from_le_bytes(data.subrange(at, at + 4));
        let bytes = data.subrange(at + 4, at + 4 + len);
        decode_utf8_encode_utf8(bytes);
        assert(encode_utf8(text) == bytes);
        assert(spec_u32_to_le_bytes(len) == data.subrange(at, at + 4));
        assert(text_bytes(text) =~= data.subrange(at, next));
    }
}

proof fn lemma_u64_read(data: Seq<u8>, at: int)
    ensures
        read_u64(data, at) matches Some((value, next)) ==> {
            &&& 0 <= at && next == at + 8 && next <= data.len()
            &&& spec_u64_to_le_bytes(value) == data.subrange(at, next)
        },
{
    lemma_auto_spec_u64_to_from_le_bytes();
}

proof fn lemma_option_read(data: Seq<u8>, at: int)
    ensures
        read_option(data, at) matches Some((value, next)) ==> {
            &&& 0 <= at && at < next <= data.len()
            &&& option_bytes(value) == data.subrange(at, next)
        },
{
    if let Some((value, next)) = read_option(data, at) {
        match value {
            None => {
                assert(option_bytes(value) =~= data.subrange(at, next));
            },
            Some(amount) => {
                lemma_u64_read(data, at + 1);
                assert(option_bytes(value) =~= data.subrange(at, next));
            },
        }
    }
}

/// What is encoded can be decoded: the encoding of an instruction whose texts are short
/// enough decodes to that instruction.
pub proof fn lemma_decode_encoded(instruction: CardInstructionView)
    requires
        encodable(instruction),
    ensures
        decoded(instruction_bytes(instruction)) == Some(instruction),
{
    lemma_auto_spec_u64_to_from_le_bytes();
    lemma_auto_spec_u32_to_from_le_bytes();
    let args = instruction->Init_0;
    let data = instruction_bytes(instruction);
    let f1 = text_bytes(args.reference);
    let f2 = text_bytes(args.memo);
    let f3 = spec_u64_to_le_bytes(args.network_fee);
    let f4 = spec_u64_to_le_bytes(args.amount);
    let f5 = option_bytes(args.platform_fee);
    let f6 = option_bytes(args.referrer_fee);
    let at1 = 2 + f1.len();
    let at2 = at1 + f2.len();
    let at3 = at2 + 8;
    let at4 = at3 + 8;
    let at5 = at4 + f5.len();
    let at6 = at5 + f6.len();
    assert(data =~= seq![0u8, args.bump] + f1 + f2 + f3 + f4 + f5 + f6);
    assert(data.len() == at6);
    assert(data.subrange(2, at1 as int) =~= f1);
    assert(data.subrange(at1 as int, at2 as int) =~= f2);
    assert(data.subrange(at2 as int, at3 as int) =~= f3);
    assert(data.subrange(at3 as int, at4 as int) =~= f4);
    assert(data.subrange(at4 as int, at5 as int) =~= f5);
    assert(data.subrange(at5 as int, at6 as int) =~= f6);
    lemma_text_at(data, 2, args.reference);
    lemma_text_at(data, at1 as int, args.memo);
    lemma_u64_at(data, at2 as int, args.network_fee);
    lemma_u64_at(data, at3 as int, args.amount);
    lemma_option_at(data, at4 as int, args.platform_fee);
    lemma_option_at(data, at5 as int, args.referrer_fee);
}

/// What decodes was encoded: bytes that decode to an instruction are the encoding of that
/// instruction, and of no other.
pub proof fn lemma_encode_decoded(data: Seq<u8>)
    ensures
        decoded(data) matches Some(instruction) ==> instruction_bytes(instruction) == data
            && encodable(instruction),
{
    if let Some(instruction) = decoded(data) {
        let args = instruction->Init_0;
        lemma_text_read(data, 2);
        let at1 = read_text(data, 2)->Some_0.1;
        lemma_text_read(data, at1);
        let at2 = read_text(data, at1)->Some_0.1;
        lemma_u64_read(data, at2);
        let at3 = at2 + 8;
        lemma_u64_read(data, at3);
        let at4 = at3 + 8;
        lemma_option_read(data, at4);
        let at5 = read_option(data, at4)->Some_0.1;
        lemma_option_read(data, at5);
        let at6 = read_option(data, at5)->Some_0.1;
        assert(data =~= seq![0u8] + (seq![args.bump] + data.subrange(2, at1) + data.subrange(
            at1,
            at2,
        ) + data.subrange(at2, at3) + data.subrange(at3, at4) + data.subrange(at4, at5)
            + data.subrange(at5, at6)));
    }
}

} // verus!
