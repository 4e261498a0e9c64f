//! The three records that the exchange keeps, and their byte layouts.

use crate::address::Address;
use crate::bytes::{le_u64, push_u64_le, read_u64_le, u64_le};
use crate::error::{viewed, DecenseError};
use vstd::prelude::*;

verus! {

/// Width of a platform record in bytes.
pub const PLATFORM_STATE_LEN: usize = 33;

/// Width of a seller record in bytes.
pub const USER_STATE_LEN: usize = 163;

/// Width of a buyer record in bytes.
pub const BUYER_STATE_LEN: usize = 41;

/// The byte that stands for a flag in a record.
pub open spec fn flag_byte(flag: bool) -> u8 {
    if flag {
        1u8
    } else {
        0u8
    }
}

/// The flag that a byte of a record stands for; only 0 and 1 are flags.
pub open spec fn flag_of(byte: u8) -> Result<bool, DecenseError> {
    if byte == 0 {
        Ok(false)
    } else if byte == 1 {
        Ok(true)
    } else {
        Err(DecenseError::InvalidAccountData)
    }
}

fn read_flag(src: &[u8], at: usize) -> (flag: Result<bool, DecenseError>)
    requires
        at < src.len(),
    ensures
        flag == flag_of(src@[at as int]),
{
    let byte = src[at];
    if byte == 0 {
        Ok(false)
    } else if byte == 1 {
        Ok(true)
    } else {
        Err(DecenseError::InvalidAccountData)
    }
}

fn push_flag(dst: &mut Vec<u8>, flag: bool)
    ensures
        final(dst)@ == old(dst)@ + seq![flag_byte(flag)],
{
    if flag {
        dst.push(1u8);
    } else {
        dst.push(0u8);
    }
}

/// Overwrites the front of `dst` with `src` and leaves the rest as it was.
fn overwrite_front(dst: &mut [u8], src: &Vec<u8>)
    requires
        old(dst).len() >= src.len(),
    ensures
        final(dst)@ == src@ + old(dst)@.skip(src@.len() as int),
{
    let mut i: usize = 0;
    while i < src.len()
        invariant
            i <= src.len(),
            dst.len() == old(dst).len(),
            dst.len() >= src.len(),
            forall|j: int| 0 <= j < i ==> dst@[j] == src@[j],
            forall|j: int| i <= j < dst@.len() ==> dst@[j] == old(dst)@[j],
        decreases src.len() - i,
    {
        dst[i] = src[i];
        i += 1;
    }
}

/// The platform's single record: whether it is set up, and where fees go.
#[derive(Clone, Copy, Debug, PartialEq, Eq)]
pub struct PlatformState {
    /// Whether the record has been stamped.
    pub is_initialized: bool,
    /// The wallet that receives the platform's fees.
    pub platform_treasury_sol_wallet: Address,
}

/// What a platform record says, with the address as its bytes.
pub struct PlatformStateView {
    pub is_initialized: bool,
    pub platform_treasury_sol_wallet: Seq<u8>,
}

impl View for PlatformState {
    type V = PlatformStateView;

    open spec fn view(&self) -> PlatformStateView {
        PlatformStateView {
            is_initialized: self.is_initialized,
            platform_treasury_sol_wallet: self.platform_treasury_sol_wallet@,
        }
    }
}

impl PlatformStateView {
    /// The address is 32 bytes wide.
    pub open spec fn wf(self) -> bool {
        self.platform_treasury_sol_wallet.len() == 32
    }

    /// The 33 bytes of the record: the flag, then the treasury address.
    pub open spec fn encode(self) -> Seq<u8> {
        seq![flag_byte(self.is_initialized)] + self.platform_treasury_sol_wallet
    }

    /// The record that the first 33 bytes spell, whether populated or not.
    pub open spec fn decode_front(bytes: Seq<u8>) -> Result<PlatformStateView, DecenseError>
        recommends
            bytes.len() >= PLATFORM_STATE_LEN,
    {
        match flag_of(bytes[0]) {
            Ok(is_initialized) => Ok(
                PlatformStateView {
                    is_initialized,
                    platform_treasury_sol_wallet: bytes.subrange(1, 33),
                },
            ),
            Err(e) => Err(e),
        }
    }

    /// The record that exactly 33 bytes spell, whether populated or not.
    pub open spec fn decode(bytes: Seq<u8>) -> Result<PlatformStateView, DecenseError> {
        if bytes.len() != PLATFORM_STATE_LEN {
            Err(DecenseError::InvalidAccountData)
        } else {
            Self::decode_front(bytes)
        }
    }

    /// The populated record that exactly 33 bytes spell.
    pub open spec fn decode_populated(bytes: Seq<u8>) -> Result<PlatformStateView, DecenseError> {
        match Self::decode(bytes) {
            Ok(state) => if state.is_initialized {
                Ok(state)
            } else {
                Err(DecenseError::UninitializedAccount)
            },
            Err(e) => Err(e),
        }
    }
}

impl PlatformState {
    /// Whether the record has been populated.
    pub fn is_initialized(&self) -> (flag: bool)
        ensures
            flag == self.is_initialized,
    {
        self.is_initialized
    }

    /// The record as its 33 bytes.
    pub fn to_bytes(&self) -> (bytes: Vec<u8>)
        ensures
            bytes@ == self@.encode(),
            bytes@.len() == PLATFORM_STATE_LEN,
    {
        let mut bytes: Vec<u8> = Vec::new();
        push_flag(&mut bytes, self.is_initialized);
        self.platform_treasury_sol_wallet.push_to(&mut bytes);
        bytes
    }

    /// Reads a record from the first 33 bytes of `src`.
    pub fn unpack_from_slice(src: &[u8]) -> (state: Result<PlatformState, DecenseError>)
        requires
            src.len() >= PLATFORM_STATE_LEN,
        ensures
            viewed(state) == PlatformStateView::decode_front(src@),
    {
        let is_initialized = read_flag(src, 0)?;
        let platform_treasury_sol_wallet = Address::read(src, 1);
        Ok(PlatformState { is_initialized, platform_treasury_sol_wallet })
    }

    /// Writes the record over the first 33 bytes of `dst`.
    pub fn pack_into_slice(&self, dst: &mut [u8])
        requires
            old(dst).len() >= PLATFORM_STATE_LEN,
        ensures
            final(dst)@ == self@.encode() + old(dst)@.skip(33),
    {
        let bytes = self.to_bytes();
        overwrite_front(dst, &bytes);
    }

    /// Reads a record from exactly 33 bytes, populated or not.
    pub fn unpack_unchecked(input: &[u8]) -> (state: Result<PlatformState, DecenseError>)
        ensures
            viewed(state) == PlatformStateView::decode(input@),
    {
        if input.len() != PLATFORM_STATE_LEN {
            return Err(DecenseError::InvalidAccountData);
        }
        PlatformState::unpack_from_slice(input)
    }

    /// Reads a populated record from exactly 33 bytes.
    pub fn unpack(input: &[u8]) -> (state: Result<PlatformState, DecenseError>)
        ensures
            viewed(state) == PlatformStateView::decode_populated(input@),
    {
        match PlatformState::unpack_unchecked(input) {
            Ok(state) => if state.is_initialized {
                Ok(state)
            } else {
                Err(DecenseError::UninitializedAccount)
            },
            Err(e) => Err(e),
        }
    }

    /// Writes the record into a buffer of exactly 33 bytes.
    pub fn pack(src: PlatformState, dst: &mut [u8]) -> (done: Result<(), DecenseError>)
        ensures
            old(dst).len() == PLATFORM_STATE_LEN ==> done is Ok && final(dst)@ == src@.encode(),
            old(dst).len() != PLATFORM_STATE_LEN ==> done == Err::<(), DecenseError>(
                DecenseError::InvalidAccountData,
            ) && final(dst)@ == old(dst)@,
    {
        if dst.len() != PLATFORM_STATE_LEN {
            return Err(DecenseError::InvalidAccountData);
        }
        src.pack_into_slice(dst);
        Ok(())
    }
}

/// A seller's record: who issued the token, on what terms, and where the
/// curve stands.
#[derive(Clone, Copy, Debug, PartialEq, Eq)]
pub struct UserState {
    /// Whether the token has been launched.
    pub is_initialized: bool,
    /// The seller, who owns the token.
    pub user: Address,
    /// The valuation that the seller declared at the launch.
    pub market_valuation: u64,
    /// The supply in whole tokens that the seller declared at the launch.
    pub supply: u64,
    /// The mint of the token.
    pub user_token_mint: Address,
    /// The seller's own token account.
    pub user_ata: Address,
    /// The vault's token account, which the custody address owns.
    pub pda_ata: Address,
    /// The share for the seller's treasury, in percent.
    pub user_treasury_percentage: u8,
    /// The share for liquidation, in percent.
    pub liquidate_percentage: u8,
    /// The current price, scaled by `PRICE_SCALE`; only launches and
    /// exchanges set it.
    pub current_price: u64,
    /// The number of traders who hold the token.
    pub holders: u64,
}

/// What a seller record says, with each address as its bytes.
pub struct UserStateView {
    pub is_initialized: bool,
    pub user: Seq<u8>,
    pub market_valuation: u64,
    pub supply: u64,
    pub user_token_mint: Seq<u8>,
    pub user_ata: Seq<u8>,
    pub pda_ata: Seq<u8>,
    pub user_treasury_percentage: u8,
    pub liquidate_percentage: u8,
    pub current_price: u64,
    pub holders: u64,
}

impl View for UserState {
    type V = UserStateView;

    open spec fn view(&self) -> UserStateView {
        UserStateView {
            is_initialized: self.is_initialized,
            user: self.user@,
            market_valuation: self.market_valuation,
            supply: self.supply,
            user_token_mint: self.user_token_mint@,
            user_ata: self.user_ata@,
            pda_ata: self.pda_ata@,
            user_treasury_percentage: self.user_treasury_percentage,
            liquidate_percentage: self.liquidate_percentage,
            current_price: self.current_price,
            holders: self.holders,
        }
    }
}

impl UserStateView {
    /// Each address is 32 bytes wide.
    pub open spec fn wf(self) -> bool {
        &&& self.user.len() == 32
        &&& self.user_token_mint.len() == 32
        &&& self.user_ata.len() == 32
        &&& self.pda_ata.len() == 32
    }

    /// The 163 bytes of the record, field after field, numbers least
    /// significant byte first.
    pub open spec fn encode(self) -> Seq<u8> {
        seq![flag_byte(self.is_initialized)] + self.user + u64_le(self.market_valuation) + u64_le(
            self.supply,
        ) + self.user_token_mint + self.user_ata + self.pda_ata
            + seq![self.user_treasury_percentage, self.liquidate_percentage] + u64_le(
            self.current_price,
        ) + u64_le(self.holders)
    }

    /// The record that the first 163 bytes spell, whether populated or not.
    pub open spec fn decode_front(bytes: Seq<u8>) -> Result<UserStateView, DecenseError>
        recommends
            bytes.len() >= USER_STATE_LEN,
    {
        match flag_of(bytes[0]) {
            Ok(is_initialized) => Ok(
                UserStateView {
                    is_initialized,
                    user: bytes.subrange(1, 33),
                    market_valuation: le_u64(bytes.subrange(33, 41)),
                    supply: le_u64(bytes.subrange(41, 49)),
                    user_token_mint: bytes.subrange(49, 81),
                    user_ata: bytes.subrange(81, 113),
                    pda_ata: bytes.subrange(113, 145),
                    user_treasury_percentage: bytes[145],
                    liquidate_percentage: bytes[146],
                    current_price: le_u64(bytes.subrange(147, 155)),
                    holders: le_u64(bytes.subrange(155, 163)),
                },
            ),
            Err(e) => Err(e),
        }
    }

    /// The record that exactly 163 bytes spell, whether populated or not.
    pub open spec fn decode(bytes: Seq<u8>) -> Result<UserStateView, DecenseError> {
        if bytes.len() != USER_STATE_LEN {
            Err(DecenseError::InvalidAccountData)
        } else {
            Self::decode_front(bytes)
        }
    }

    /// The populated record that exactly 163 bytes spell.
    pub open spec fn decode_populated(bytes: Seq<u8>) -> Result<UserStateView, DecenseError> {
        match Self::decode(bytes) {
            Ok(state) => if state.is_initialized {
                Ok(state)
            } else {
                Err(DecenseError::UninitializedAccount)
            },
            Err(e) => Err(e),
        }
    }
}

impl UserState {
    /// Whether the record has been populated.
    pub fn is_initialized(&self) -> (flag: bool)
        ensures
            flag == self.is_initialized,
    {
        self.is_initialized
    }

    /// The record as its 163 bytes.
    pub fn to_bytes(&self) -> (bytes: Vec<u8>)
        ensures
            bytes@ == self@.encode(),
            bytes@.len() == USER_STATE_LEN,
    {
        let mut bytes: Vec<u8> = Vec::new();
        push_flag(&mut bytes, self.is_initialized);
        self.user.push_to(&mut bytes);
        push_u64_le(&mut bytes, self.market_valuation);
        push_u64_le(&mut bytes, self.supply);
        self.user_token_mint.push_to(&mut bytes);
        self.user_ata.push_to(&mut bytes);
        self.pda_ata.push_to(&mut bytes);
        bytes.push(self.user_treasury_percentage);
        bytes.push(self.liquidate_percentage);
        push_u64_le(&mut bytes, self.current_price);
        push_u64_le(&mut bytes, self.holders);
        bytes
    }

    /// Reads a record from the first 163 bytes of `src`.
    pub fn unpack_from_slice(src: &[u8]) -> (state: Result<UserState, DecenseError>)
        requires
            src.len() >= USER_STATE_LEN,
        ensures
            viewed(state) == UserStateView::decode_front(src@),
    {
        let is_initialized = read_flag(src, 0)?;
        Ok(
            UserState {
                is_initialized,
                user: Address::read(src, 1),
                market_valuation: read_u64_le(src, 33),
                supply: read_u64_le(src, 41),
                user_token_mint: Address::read(src, 49),
                user_ata: Address::read(src, 81),
                pda_ata: Address::read(src, 113),
                user_treasury_percentage: src[145],
                liquidate_percentage: src[146],
                current_price: read_u64_le(src, 147),
                holders: read_u64_le(src, 155),
            },
        )
    }

    /// Writes the record over the first 163 bytes of `dst`.
    pub fn pack_into_slice(&self, dst: &mut [u8])
        requires
            old(dst).len() >= USER_STATE_LEN,
        ensures
            final(dst)@ == self@.encode() + old(dst)@.skip(163),
    {
        let bytes = self.to_bytes();
        overwrite_front(dst, &bytes);
    }

    /// Reads a record from exactly 163 bytes, populated or not.
    pub fn unpack_unchecked(input: &[u8]) -> (state: Result<UserState, DecenseError>)
        ensures
            viewed(state) == UserStateView::decode(input@),
    {
        if input.len() != USER_STATE_LEN {
            return Err(DecenseError::InvalidAccountData);
        }
        UserState::unpack_from_slice(input)
    }

    /// Reads a populated record from exactly 163 bytes.
    pub fn unpack(input: &[u8]) -> (state: Result<UserState, DecenseError>)
        ensures
            viewed(state) == UserStateView::decode_populated(input@),
    {
        match UserState::unpack_unchecked(input) {
            Ok(state) => if state.is_initialized {
                Ok(state)
            } else {
                Err(DecenseError::UninitializedAccount)
            },
            Err(e) => Err(e),
        }
    }

    /// Writes the record into a buffer of exactly 163 bytes.
    pub fn pack(src: UserState, dst: &mut [u8]) -> (done: Result<(), DecenseError>)
        ensures
            old(dst).len() == USER_STATE_LEN ==> done is Ok && final(dst)@ == src@.encode(),
            old(dst).len() != USER_STATE_LEN ==> done == Err::<(), DecenseError>(
                DecenseError::InvalidAccountData,
            ) && final(dst)@ == old(dst)@,
    {
        if dst.len() != USER_STATE_LEN {
            return Err(DecenseError::InvalidAccountData);
        }
        src.pack_into_slice(dst);
        Ok(())
    }
}

/// A buyer's record: who trades, and what the last trade bought.
#[derive(Clone, Copy, Debug, PartialEq, Eq)]
pub struct BuyerState {
    /// Whether the buyer has been set up for trading.
    pub is_initialized: bool,
    /// The buyer.
    pub buyer: Address,
    /// The quantity of the buyer's last exchange; each exchange overwrites
    /// it.
    pub current_holding_in_tokens: u64,
}

/// What a buyer record says, with the address as its bytes.
pub struct BuyerStateView {
    pub is_initialized: bool,
    pub buyer: Seq<u8>,
    pub current_holding_in_tokens: u64,
}

impl View for BuyerState {
    type V = BuyerStateView;

    open spec fn view(&self) -> BuyerStateView {
        BuyerStateView {
            is_initialized: self.is_initialized,
            buyer: self.buyer@,
            current_holding_in_tokens: self.current_holding_in_tokens,
        }
    }
}

impl BuyerStateView {
    /// The address is 32 bytes wide.
    pub open spec fn wf(self) -> bool {
        self.buyer.len() == 32
    }

    /// The 41 bytes of the record: the flag, the buyer, the holding.
    pub open spec fn encode(self) -> Seq<u8> {
        seq![flag_byte(self.is_initialized)] + self.buyer + u64_le(self.current_holding_in_tokens)
    }

    /// The record that the first 41 bytes spell, whether populated or not.
    pub open spec fn decode_front(bytes: Seq<u8>) -> Result<BuyerStateView, DecenseError>
        recommends
            bytes.len() >= BUYER_STATE_LEN,
    {
        match flag_of(bytes[0]) {
            Ok(is_initialized) => Ok(
                BuyerStateView {
                    is_initialized,
                    buyer: bytes.subrange(1, 33),
                    current_holding_in_tokens: le_u64(bytes.subrange(33, 41)),
                },
            ),
            Err(e) => Err(e),
        }
    }

    /// The record that exactly 41 bytes spell, whether populated or not.
    pub open spec fn decode(bytes: Seq<u8>) -> Result<BuyerStateView, DecenseError> {
        if bytes.len() != BUYER_STATE_LEN {
            Err(DecenseError::InvalidAccountData)
        } else {
            Self::decode_front(bytes)
        }
    }

    /// The populated record that exactly 41 bytes spell.
    pub open spec fn decode_populated(bytes: Seq<u8>) -> Result<BuyerStateView, DecenseError> {
        match Self::decode(bytes) {
            Ok(state) => if state.is_initialized {
                Ok(state)
            } else {
                Err(DecenseError::UninitializedAccount)
            },
            Err(e) => Err(e),
        }
    }
}

impl BuyerState {
    /// Whether the record has been populated.
    pub fn is_initialized(&self) -> (flag: bool)
        ensures
            flag == self.is_initialized,
    {
        self.is_initialized
    }

    /// The record as its 41 bytes.
    pub fn to_bytes(&self) -> (bytes: Vec<u8>)
        ensures
            bytes@ == self@.encode(),
            bytes@.len() == BUYER_STATE_LEN,
    {
        let mut bytes: Vec<u8> = Vec::new();
        push_flag(&mut bytes, self.is_initialized);
        self.buyer.push_to(&mut bytes);
        push_u64_le(&mut bytes, self.current_holding_in_tokens);
        bytes
    }

    /// Reads a record from the first 41 bytes of `src`.
    pub fn unpack_from_slice(src: &[u8]) -> (state: Result<BuyerState, DecenseError>)
        requires
            src.len() >= BUYER_STATE_LEN,
        ensures
            viewed(state) == BuyerStateView::decode_front(src@),
    {
        let is_initialized = read_flag(src, 0)?;
        Ok(
            BuyerState {
                is_initialized,
                buyer: Address::read(src, 1),
                current_holding_in_tokens: read_u64_le(src, 33),
            },
        )
    }

    /// Writes the record over the first 41 bytes of `dst`.
    pub fn pack_into_slice(&self, dst: &mut [u8])
        requires
            old(dst).len() >= BUYER_STATE_LEN,
        ensures
            final(dst)@ == self@.encode() + old(dst)@.skip(41),
    {
        let bytes = self.to_bytes();
        overwrite_front(dst, &bytes);
    }

    /// Reads a record from exactly 41 bytes, populated or not.
    pub fn unpack_unchecked(input: &[u8]) -> (state: Result<BuyerState, DecenseError>)
        ensures
            viewed(state) == BuyerStateView::decode(input@),
    {
        if input.len() != BUYER_STATE_LEN {
            return Err(DecenseError::InvalidAccountData);
        }
        BuyerState::unpack_from_slice(input)
    }

    /// Reads a populated record from exactly 41 bytes.
    pub fn unpack(input: &[u8]) -> (state: Result<BuyerState, DecenseError>)
        ensures
            viewed(state) == BuyerStateView::decode_populated(input@),
    {
        match BuyerState::unpack_unchecked(input) {
            Ok(state) => if state.is_initialized {
                Ok(state)
            } else {
                Err(DecenseError::UninitializedAccount)
            },
            Err(e) => Err(e),
        }
    }

    /// Writes the record into a buffer of exactly 41 bytes.
    pub fn pack(src: BuyerState, dst: &mut [u8]) -> (done: Result<(), DecenseError>)
        ensures
            old(dst).len() == BUYER_STATE_LEN ==> done is Ok && final(dst)@ == src@.encode(),
            old(dst).len() != BUYER_STATE_LEN ==> done == Err::<(), DecenseError>(
                DecenseError::InvalidAccountData,
            ) && final(dst)@ == old(dst)@,
    {
        if dst.len() != BUYER_STATE_LEN {
            return Err(DecenseError::InvalidAccountData);
        }
        src.pack_into_slice(dst);
        Ok(())
    }
}

/// Every record that a program can hold is well formed: its addresses are
/// 32 bytes wide.
pub proof fn lemma_records_are_well_formed(
    platform: PlatformState,
    user: UserState,
    buyer: BuyerState,
)
    ensures
        platform@.wf(),
        user@.wf(),
        buyer@.wf(),
{
}

/// A platform record read back from its own bytes is the record.
pub proof fn lemma_platform_round_trip(state: PlatformStateView)
    requires
        state.wf(),
    ensures
        state.encode().len() == PLATFORM_STATE_LEN,
        PlatformStateView::decode(state.encode()) == Ok::<PlatformStateView, DecenseError>(state),
{
    let bytes = state.encode();
    assert(bytes.subrange(1, 33) =~= state.platform_treasury_sol_wallet);
}

/// A seller record read back from its own bytes is the record.
pub proof fn lemma_user_round_trip(state: UserStateView)
    requires
        state.wf(),
    ensures
        state.encode().len() == USER_STATE_LEN,
        UserStateView::decode(state.encode()) == Ok::<UserStateView, DecenseError>(state),
{
    let bytes = state.encode();
    crate::bytes::lemma_u64_le_then_le_u64(state.market_valuation);
    crate::bytes::lemma_u64_le_then_le_u64(state.supply);
    crate::bytes::lemma_u64_le_then_le_u64(state.current_price);
    crate::bytes::lemma_u64_le_then_le_u64(state.holders);
    assert(bytes.subrange(1, 33) =~= state.user);
    assert(bytes.subrange(33, 41) =~= u64_le(state.market_valuation));
    assert(bytes.subrange(41, 49) =~= u64_le(state.supply));
    assert(bytes.subrange(49, 81) =~= state.user_token_mint);
    assert(bytes.subrange(81, 113) =~= state.user_ata);
    assert(bytes.subrange(113, 145) =~= state.pda_ata);
    assert(bytes.subrange(147, 155) =~= u64_le(state.current_price));
    assert(bytes.subrange(155, 163) =~= u64_le(state.holders));
}

/// A buyer record read back from its own bytes is the record.
pub proof fn lemma_buyer_round_trip(state: BuyerStateView)
    requires
        state.wf(),
    ensures
        state.encode().len() == BUYER_STATE_LEN,
        BuyerStateView::decode(state.encode()) == Ok::<BuyerStateView, DecenseError>(state),
{
    let bytes = state.encode();
    crate::bytes::lemma_u64_le_then_le_u64(state.current_holding_in_tokens);
    assert(bytes.subrange(1, 33) =~= state.buyer);
    assert(bytes.subrange(33, 41) =~= u64_le(state.current_holding_in_tokens));
}

/// The bytes that a platform record was read from are the bytes of the
/// record.
pub proof fn lemma_platform_bytes_round_trip(bytes: Seq<u8>)
    requires
        PlatformStateView::decode(bytes) is Ok,
    ensures
        PlatformStateView::decode(bytes)->Ok_0.wf(),
        PlatformStateView::decode(bytes)->Ok_0.encode() == bytes,
{
}

/// The bytes that a seller record was read from are the bytes of the
/// record.
pub proof fn lemma_user_bytes_round_trip(bytes: Seq<u8>)
    requires
        UserStateView::decode(bytes) is Ok,
    ensures
        UserStateView::decode(bytes)->Ok_0.wf(),
        UserStateView::decode(bytes)->Ok_0.encode() == bytes,
{
    crate::bytes::lemma_le_u64_then_u64_le(bytes.subrange(33, 41));
    crate::bytes::lemma_le_u64_then_u64_le(bytes.subrange(41, 49));
    crate::bytes::lemma_le_u64_then_u64_le(bytes.subrange(147, 155));
    crate::bytes::lemma_le_u64_then_u64_le(bytes.subrange(155, 163));
}

/// The bytes that a buyer record was read from are the bytes of the record.
pub proof fn lemma_buyer_bytes_round_trip(bytes: Seq<u8>)
    requires
        BuyerStateView::decode(bytes) is Ok,
    ensures
        BuyerStateView::decode(bytes)->Ok_0.wf(),
        BuyerStateView::decode(bytes)->Ok_0.encode() == bytes,
{
    crate::bytes::lemma_le_u64_then_u64_le(bytes.subrange(33, 41));
}

/// A buffer of zeros of a record's width reads as a record that is not
/// populated and whose every field is zero.
pub proof fn lemma_zeroed_records_are_blank()
    ensures
        PlatformStateView::decode(Seq::new(33, |i: int| 0u8)) == Ok::<
            PlatformStateView,
            DecenseError,
        >(
            PlatformStateView {
                is_initialized: false,
                platform_treasury_sol_wallet: Seq::new(32, |i: int| 0u8),
            },
        ),
        UserStateView::decode(Seq::new(163, |i: int| 0u8)) == Ok::<UserStateView, DecenseError>(
            UserStateView {
                is_initialized: false,
                user: Seq::new(32, |i: int| 0u8),
                market_valuation: 0,
                supply: 0,
                user_token_mint: Seq::new(32, |i: int| 0u8),
                user_ata: Seq::new(32, |i: int| 0u8),
                pda_ata: Seq::new(32, |i: int| 0u8),
                user_treasury_percentage: 0,
                liquidate_percentage: 0,
                current_price: 0,
                holders: 0,
            },
        ),
        BuyerStateView::decode(Seq::new(41, |i: int| 0u8)) == Ok::<BuyerStateView, DecenseError>(
            BuyerStateView {
                is_initialized: false,
                buyer: Seq::new(32, |i: int| 0u8),
                current_holding_in_tokens: 0,
            },
        ),
{
    reveal(le_u64);
    let zeros = Seq::new(32, |i: int| 0u8);
    let platform = Seq::new(33, |i: int| 0u8);
    assert(platform.subrange(1, 33) =~= zeros);
    let user = Seq::new(163, |i: int| 0u8);
    assert(user.subrange(1, 33) =~= zeros);
    assert(user.subrange(49, 81) =~= zeros);
    assert(user.subrange(81, 113) =~= zeros);
    assert(user.subrange(113, 145) =~= zeros);
    let buyer = Seq::new(41, |i: int| 0u8);
    assert(buyer.subrange(1, 33) =~= zeros);
}

} // verus!
