use switchboard_on_demand::accounts::RandomnessAccountData;
use vstd::prelude::*;

verus! {

/// What a lottery reads of an oracle's randomness account.
#[derive(Clone, Copy, Debug)]
pub struct Randomness {
    /// The slot in which the request was made.
    pub seed_slot: u64,
    /// The slot in which the oracle revealed the value.
    pub reveal_slot: u64,
    /// The revealed value.
    pub value: [u8; 32],
}

/// Bytes in a randomness account: an 8-byte tag and a 400-byte body.
pub const RANDOMNESS_ACCOUNT_LEN: usize = 408;

/// The tag that opens every randomness account.
pub open spec fn randomness_tag() -> Seq<u8> {
    seq![10u8, 66u8, 229u8, 135u8, 220u8, 239u8, 217u8, 114u8]
}

/// Whether `data` is long enough for a randomness account and opens with
/// its tag.
pub open spec fn is_randomness_account(data: Seq<u8>) -> bool {
    &&& data.len() >= RANDOMNESS_ACCOUNT_LEN
    &&& data.subrange(0, 8) == randomness_tag()
}

/// The number that eight bytes spell, lowest byte first.
pub open spec fn le_u64(b: Seq<u8>) -> int {
    b[0] + b[1] * 0x100 + b[2] * 0x1_0000 + b[3] * 0x100_0000 + b[4] * 0x1_0000_0000 + b[5]
        * 0x100_0000_0000 + b[6] * 0x1_0000_0000_0000 + b[7] * 0x100_0000_0000_0000
}

/// Whether `r` is what the randomness account `data` holds: the request slot
/// in bytes 104 to 111, the reveal slot in bytes 144 to 151 and the value in
/// bytes 152 to 183.
pub open spec fn holds_request(data: Seq<u8>, r: Randomness) -> bool {
    &&& is_randomness_account(data)
    &&& r.seed_slot == le_u64(data.subrange(104, 112))
    &&& r.reveal_slot == le_u64(data.subrange(144, 152))
    &&& r.value@ == data.subrange(152, 184)
}

/// The ticket that a revealed value picks among `total` tickets: its first
/// byte, reduced modulo `total`.
pub open spec fn drawn_ticket(value: Seq<u8>, total: u64) -> int {
    value[0] as int % total as int
}

/// What the account contents `data` hold: a request, if they are those of
/// a randomness account, and nothing otherwise.
pub open spec fn request_in(data: Seq<u8>) -> Option<Randomness> {
    if is_randomness_account(data) {
        Some(choose|r: Randomness| holds_request(data, r))
    } else {
        None
    }
}

/// Account contents hold at most one request.
pub proof fn lemma_request_is_unique(data: Seq<u8>, a: Randomness, b: Randomness)
    requires
        holds_request(data, a),
        holds_request(data, b),
    ensures
        a == b,
{
    assert(a.value@ == b.value@);
    assert(a.value =~= b.value);
}

/// Calls `RandomnessAccountData::parse` of switchboard-on-demand and hands
/// out the three fields that a lottery reads. The call reads an account in
/// place and refuses bytes that do not lie at a multiple of 8, so it gets a
/// copy of the first 408 bytes in an array of 64-bit words, which
/// `bytemuck::cast_slice_mut` shows as bytes; it looks at no byte after
/// those.
///
/// Trusted, not proved: on bytes that are long enough, the call accepts
/// exactly those that open with the account tag, and the fields are the
/// bytes of the account at the offsets of `holds_request`, the two slots
/// read lowest byte first.
#[verifier::external_body]
fn parse_randomness(data: &[u8]) -> (r: Option<Randomness>)
    requires
        data@.len() >= RANDOMNESS_ACCOUNT_LEN,
    ensures
        r is Some <==> is_randomness_account(data@),
        r matches Some(request) ==> holds_request(data@, request),
{
    let mut words = [0u64; 51];
    let bytes: &mut [u8] = bytemuck::cast_slice_mut(&mut words);
    bytes.copy_from_slice(&data[..RANDOMNESS_ACCOUNT_LEN]);
    let cell = std::cell::RefCell::new(bytes);
    let parsed = match RandomnessAccountData::parse(cell.borrow()) {
        Ok(account) => Some(
            Randomness {
                seed_slot: u64::from_le_bytes(account.seed_slot.to_ne_bytes()),
                reveal_slot: u64::from_le_bytes(account.reveal_slot.to_ne_bytes()),
                value: account.value,
            },
        ),
        Err(_) => None,
    };
    parsed
}

impl Randomness {
    /// Reads the request that the contents of an oracle's randomness
    /// account hold. Contents too short for such an account, or without its
    /// tag, hold none.
    pub fn read(data: &[u8]) -> (r: Option<Randomness>)
        ensures
            r == request_in(data@),
            r is Some <==> is_randomness_account(data@),
            r matches Some(request) ==> holds_request(data@, request),
    {
        if data.len() < RANDOMNESS_ACCOUNT_LEN {
            return None;
        }
        let r = parse_randomness(data);
        proof {
            if let Some(request) = r {
                lemma_request_is_unique(
                    data@,
                    request,
                    choose|q: Randomness| holds_request(data@, q),
                );
            }
        }
        r
    }

    /// Whether the request was made in the slot just before `slot`.
    pub open spec fn made_just_before(self, slot: u64) -> bool {
        self.seed_slot + 1 == slot
    }

    /// The value, if it was revealed in `slot`.
    pub open spec fn value_at(self, slot: u64) -> Option<[u8; 32]> {
        if slot == self.reveal_slot {
            Some(self.value)
        } else {
            None
        }
    }

    /// Whether the request was made in the slot just before `slot`. No
    /// request was made before slot 0.
    pub fn is_fresh(&self, slot: u64) -> (r: bool)
        ensures
            r == self.made_just_before(slot),
    {
        slot > 0 && self.seed_slot == slot - 1
    }

    /// The revealed value, which counts only in the slot of its reveal; in
    /// any other slot the request is pending.
    pub fn get_value(&self, slot: u64) -> (r: Option<[u8; 32]>)
        ensures
            r == self.value_at(slot),
    {
        if slot != self.reveal_slot {
            return None;
        }
        Some(self.value)
    }
}

/// Picks the winner among `total` tickets from a revealed value.
pub fn winning_ticket(value: &[u8; 32], total: u64) -> (id: u64)
    requires
        total > 0,
    ensures
        id == drawn_ticket(value@, total),
        id < total,
{
    (value[0] as u64) % total
}

} // verus!
