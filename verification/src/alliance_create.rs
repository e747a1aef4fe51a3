//! Founding an alliance: the name, tag and image checks, the fees (ANTIMATTER burnt and paid to
//! the protocol treasury, USDC paid to the store treasury), and the records it starts with.
use vstd::prelude::*;

use crate::accelerate::{
    antimatter_transfer_check, burn_antimatter, burn_check, transfer_antimatter, transfer_usdc,
    usdc_transfer_check, TokenAccountView,
};
use crate::accounts::{AllianceMembership, AllianceState, StoreConfig};
use crate::address::{is_associated_token_account, is_associated_token_address};
use crate::alliance::{alliance_max_members, alliance_max_members_spec, init_alliance_membership, new_membership, ALLIANCE_ROLE_LEADER};
use crate::constants::ANTIMATTER_SCALE;
use crate::error::GameStateError;
use crate::formulas::{copy_name, is_name_copy};
use crate::key::Key;
use vstd::string::StringSliceAdditionalSpecFns;

verus! {

/// The longest alliance tag, in bytes.
pub const MAX_ALLIANCE_TAG_LEN: usize = 8;
/// The longest alliance image address, in bytes.
pub const MAX_ALLIANCE_IMAGE_URL_LEN: usize = 128;
/// The ANTIMATTER burnt when an alliance is founded.
pub const ALLIANCE_CREATE_ANTIMATTER_BURN: u64 = 50 * ANTIMATTER_SCALE;
/// The ANTIMATTER paid to the protocol treasury when an alliance is founded.
pub const ALLIANCE_CREATE_ANTIMATTER_TREASURY: u64 = 50 * ANTIMATTER_SCALE;
/// The ANTIMATTER a founder must hold: the burn and the treasury share together.
pub const ALLIANCE_CREATE_ANTIMATTER_COST: u64 = 100 * ANTIMATTER_SCALE;
/// The USDC (base units) paid to the store treasury when an alliance is founded.
pub const ALLIANCE_CREATE_USDC_COST: u64 = 10_000_000;

/// Whether `c` has the Unicode `White_Space` property.
pub open spec fn is_white_space(c: char) -> bool {
    let u = c as u32;
    ||| 0x9 <= u <= 0xD
    ||| u == 0x20
    ||| u == 0x85
    ||| u == 0xA0
    ||| u == 0x1680
    ||| 0x2000 <= u <= 0x200A
    ||| u == 0x2028
    ||| u == 0x2029
    ||| u == 0x202F
    ||| u == 0x205F
    ||| u == 0x3000
}

/// `s` without its leading whitespace.
pub open spec fn trimmed_start(s: Seq<char>) -> Seq<char>
    decreases s.len(),
{
    if s.len() > 0 && is_white_space(s[0]) {
        trimmed_start(s.drop_first())
    } else {
        s
    }
}

/// `s` without its trailing whitespace.
pub open spec fn trimmed_end(s: Seq<char>) -> Seq<char>
    decreases s.len(),
{
    if s.len() > 0 && is_white_space(s.last()) {
        trimmed_end(s.drop_last())
    } else {
        s
    }
}

/// The text `s` with leading and trailing whitespace removed.
pub open spec fn trimmed(s: Seq<char>) -> Seq<char> {
    trimmed_end(trimmed_start(s))
}

/// Whether `c` has the Unicode `White_Space` property.
fn white_space(c: char) -> (r: bool)
    ensures
        r == is_white_space(c),
{
    let u = c as u32;
    (0x9 <= u && u <= 0xD) || u == 0x20 || u == 0x85 || u == 0xA0 || u == 0x1680 || (0x2000 <= u && u <= 0x200A)
        || u == 0x2028 || u == 0x2029 || u == 0x202F || u == 0x205F || u == 0x3000
}

/// Dropping the leading whitespace of `s`, which ends before position `i`, leaves `s` from `i`.
proof fn lemma_trimmed_start_at(s: Seq<char>, i: int)
    requires
        0 <= i <= s.len(),
        forall|j: int| 0 <= j < i ==> is_white_space(#[trigger] s[j]),
        i < s.len() ==> !is_white_space(s[i]),
    ensures
        trimmed_start(s) == s.subrange(i, s.len() as int),
    decreases i,
{
    if i == 0 {
        assert(s.subrange(0, s.len() as int) =~= s);
    } else {
        let t = s.drop_first();
        assert forall|j: int| 0 <= j < i - 1 implies is_white_space(#[trigger] t[j]) by {
            assert(t[j] == s[j + 1]);
        }
        lemma_trimmed_start_at(t, i - 1);
        assert(t.subrange(i - 1, t.len() as int) =~= s.subrange(i, s.len() as int));
    }
}

/// Dropping the trailing whitespace of `s`, which starts at position `k`, leaves `s` up to `k`.
proof fn lemma_trimmed_end_at(s: Seq<char>, k: int)
    requires
        0 <= k <= s.len(),
        forall|j: int| k <= j < s.len() ==> is_white_space(#[trigger] s[j]),
        k > 0 ==> !is_white_space(s[k - 1]),
    ensures
        trimmed_end(s) == s.subrange(0, k),
    decreases s.len() - k,
{
    if k == s.len() {
        assert(s.subrange(0, k) =~= s);
    } else {
        let t = s.drop_last();
        assert(is_white_space(s[s.len() - 1]));
        assert forall|j: int| k <= j < t.len() implies is_white_space(#[trigger] t[j]) by {
            assert(t[j] == s[j]);
        }
        lemma_trimmed_end_at(t, k);
        assert(t.subrange(0, k) =~= s.subrange(0, k));
    }
}

/// The slice of `s` without its leading and trailing whitespace, whitespace being the
/// characters with the Unicode `White_Space` property.
fn trim_text<'a>(s: &'a str) -> (r: &'a str)
    ensures
        r@ == trimmed(s@),
{
    let n = s.unicode_len();
    let mut i: usize = 0;
    while i < n
        invariant
            n == s@.len(),
            i <= n,
            forall|j: int| 0 <= j < i ==> is_white_space(#[trigger] s@[j]),
        ensures
            i <= n,
            forall|j: int| 0 <= j < i ==> is_white_space(#[trigger] s@[j]),
            i < n ==> !is_white_space(s@[i as int]),
        decreases n - i,
    {
        if !white_space(s.get_char(i)) {
            break;
        }
        i = i + 1;
    }
    let mut k: usize = n;
    while k > i
        invariant
            n == s@.len(),
            i <= k <= n,
            forall|j: int| k <= j < n ==> is_white_space(#[trigger] s@[j]),
        ensures
            i <= k <= n,
            forall|j: int| k <= j < n ==> is_white_space(#[trigger] s@[j]),
            k > i ==> !is_white_space(s@[k - 1]),
        decreases k - i,
    {
        if !white_space(s.get_char(k - 1)) {
            break;
        }
        k = k - 1;
    }
    proof {
        let t = s@.subrange(i as int, n as int);
        lemma_trimmed_start_at(s@, i as int);
        assert forall|j: int| k - i <= j < t.len() implies is_white_space(#[trigger] t[j]) by {
            assert(t[j] == s@[i + j]);
        }
        lemma_trimmed_end_at(t, k - i);
        assert(t.subrange(0, k - i) =~= s@.subrange(i as int, k as int));
    }
    s.substring_char(i, k)
}

/// The UTF-8 bytes of `s` trimmed.
pub open spec fn trimmed_bytes(s: Seq<char>) -> Seq<u8> {
    vstd::utf8::encode_utf8(trimmed(s))
}

/// Whether `s` begins with `p`.
pub open spec fn has_prefix(s: Seq<u8>, p: Seq<u8>) -> bool {
    p.len() <= s.len() && s.subrange(0, p.len() as int) == p
}

/// Whether the bytes of `s` begin with those of `p`.
pub fn bytes_start_with(s: &[u8], p: &[u8]) -> (r: bool)
    ensures
        r == has_prefix(s@, p@),
{
    if p.len() > s.len() {
        return false;
    }
    let mut i: usize = 0;
    while i < p.len()
        invariant
            i <= p@.len() <= s@.len(),
            forall|j: int| 0 <= j < i ==> s@[j] == p@[j],
        decreases p@.len() - i,
    {
        if s[i] != p[i] {
            return false;
        }
        i = i + 1;
    }
    assert(s@.subrange(0, p@.len() as int) =~= p@);
    true
}

/// The bytes of `https://`.
pub open spec fn https_prefix() -> Seq<u8> {
    seq![104u8, 116, 116, 112, 115, 58, 47, 47]
}

/// The bytes of `http://`.
pub open spec fn http_prefix() -> Seq<u8> {
    seq![104u8, 116, 116, 112, 58, 47, 47]
}

/// The first `n` bytes of `src`, zero-padded to `n`.
pub open spec fn padded(src: Seq<u8>, n: nat) -> Seq<u8> {
    Seq::new(n, |i: int| if i < src.len() { src[i] } else { 0u8 })
}

/// The first `n` bytes of `src`, zero-padded to `n`.
pub fn pad_bytes(src: &[u8], n: usize) -> (r: Vec<u8>)
    ensures
        r@ == padded(src@, n as nat),
{
    let mut r: Vec<u8> = Vec::new();
    let mut i: usize = 0;
    while i < n
        invariant
            i <= n,
            r@ =~= padded(src@, i as nat),
        decreases n - i,
    {
        if i < src.len() {
            r.push(src[i]);
        } else {
            r.push(0u8);
        }
        i = i + 1;
    }
    r
}

/// An alliance's public tag and image address, zero-padded.
#[derive(Debug)]
pub struct AllianceMetadata {
    pub alliance: Key,
    pub tag: Vec<u8>,
    pub image_url: Vec<u8>,
    pub bump: u8,
}

/// The accounts a founding reads, as the values the checks need.
#[derive(Clone, Copy, Debug)]
pub struct FoundingAccounts {
    pub store_config: StoreConfig,
    pub treasury_usdc_account: Key,
    pub treasury_usdc: TokenAccountView,
    pub treasury_antimatter_account: Key,
    pub treasury_antimatter: TokenAccountView,
    pub antimatter_mint: Key,
    pub antimatter_mint_decimals: u8,
    pub user_antimatter: TokenAccountView,
    pub usdc_mint: Key,
    pub usdc_mint_decimals: u8,
    pub user_usdc: TokenAccountView,
}

/// What a founding leaves: the records to store and the token movements to make.
#[derive(Debug)]
pub struct Founding {
    pub alliance: AllianceState,
    pub metadata: AllianceMetadata,
    pub membership: AllianceMembership,
    pub antimatter_burnt: u64,
    pub antimatter_to_treasury: u64,
    pub usdc_to_treasury: u64,
}

/// Why founding an alliance with `name`, `tag` and `image_url` by `authority` is refused, if it
/// is.
pub open spec fn founding_check(name: Seq<char>, tag: Seq<char>, image_url: Seq<char>, a: FoundingAccounts, authority: Key) -> Result<(), GameStateError> {
    let t = trimmed_bytes(tag);
    let u = trimmed_bytes(image_url);
    if trimmed(name).len() == 0 {
        Err(GameStateError::InvalidArgs)
    } else if trimmed(tag).len() == 0 || t.len() > MAX_ALLIANCE_TAG_LEN {
        Err(GameStateError::InvalidArgs)
    } else if u.len() > MAX_ALLIANCE_IMAGE_URL_LEN {
        Err(GameStateError::InvalidArgs)
    } else if trimmed(image_url).len() != 0 && !has_prefix(u, https_prefix()) && !has_prefix(u, http_prefix()) {
        Err(GameStateError::InvalidArgs)
    } else if !a.store_config.enabled {
        Err(GameStateError::StoreDisabled)
    } else if a.store_config.treasury_usdc_account@ != a.treasury_usdc_account@ {
        Err(GameStateError::InvalidUsdcAccount)
    } else if a.treasury_antimatter.owner@ != a.store_config.admin@ {
        Err(GameStateError::InvalidAntimatterAccount)
    } else if !is_associated_token_address(a.treasury_antimatter_account@, a.store_config.admin@, a.antimatter_mint@) {
        Err(GameStateError::InvalidAntimatterAccount)
    } else if a.user_antimatter.amount < ALLIANCE_CREATE_ANTIMATTER_COST {
        Err(GameStateError::InsufficientAntimatter)
    } else if burn_check(a.antimatter_mint_decimals, a.antimatter_mint, a.user_antimatter, authority, ALLIANCE_CREATE_ANTIMATTER_BURN) is Err {
        burn_check(a.antimatter_mint_decimals, a.antimatter_mint, a.user_antimatter, authority, ALLIANCE_CREATE_ANTIMATTER_BURN)
    } else if antimatter_transfer_check(
        a.antimatter_mint_decimals,
        a.antimatter_mint,
        a.user_antimatter,
        a.treasury_antimatter,
        authority,
        ALLIANCE_CREATE_ANTIMATTER_TREASURY,
    ) is Err {
        antimatter_transfer_check(
            a.antimatter_mint_decimals,
            a.antimatter_mint,
            a.user_antimatter,
            a.treasury_antimatter,
            authority,
            ALLIANCE_CREATE_ANTIMATTER_TREASURY,
        )
    } else {
        usdc_transfer_check(a.usdc_mint_decimals, a.usdc_mint, a.user_usdc, a.treasury_usdc, authority, ALLIANCE_CREATE_USDC_COST)
    }
}

/// The alliance record a founding starts: level one, the founder its only member.
pub open spec fn founded_alliance(authority: Key, now: i64, bump: u8) -> AllianceState {
    AllianceState {
        founder: authority,
        name: arbitrary(),
        level: 1,
        xp: 0,
        member_count: 1,
        max_members: alliance_max_members_spec(1),
        total_missions_completed: 0,
        created_at: now,
        bump,
    }
}

/// Founds an alliance named `name` with `tag` and `image_url`: checks the text and the fee
/// accounts and builds the alliance, its metadata and the founder's membership, with the token
/// movements the fees take.
pub fn create_alliance(
    name: &str,
    tag: &str,
    image_url: &str,
    accounts: &FoundingAccounts,
    authority: Key,
    alliance_key: Key,
    now: i64,
    alliance_bump: u8,
    metadata_bump: u8,
    membership_bump: u8,
) -> (r: Result<Founding, GameStateError>)
    ensures
        match founding_check(name@, tag@, image_url@, *accounts, authority) {
            Err(e) => r matches Err(x) && x == e,
            Ok(()) => r matches Ok(f) && {
                &&& f.alliance == (AllianceState { name: f.alliance.name, ..founded_alliance(authority, now, alliance_bump) })
                &&& is_name_copy(f.alliance.name, name.spec_bytes(), "Alliance".spec_bytes())
                &&& f.metadata.alliance == alliance_key
                &&& f.metadata.tag@ == padded(trimmed_bytes(tag@), MAX_ALLIANCE_TAG_LEN as nat)
                &&& f.metadata.image_url@ == padded(trimmed_bytes(image_url@), MAX_ALLIANCE_IMAGE_URL_LEN as nat)
                &&& f.metadata.bump == metadata_bump
                &&& f.membership == new_membership(authority, alliance_key, ALLIANCE_ROLE_LEADER, now, membership_bump)
                &&& f.antimatter_burnt == ALLIANCE_CREATE_ANTIMATTER_BURN
                &&& f.antimatter_to_treasury == ALLIANCE_CREATE_ANTIMATTER_TREASURY
                &&& f.usdc_to_treasury == ALLIANCE_CREATE_USDC_COST
            },
        },
{
    let trimmed_name = trim_text(name);
    if trimmed_name.is_empty() {
        return Err(GameStateError::InvalidArgs);
    }
    let trimmed_tag = trim_text(tag);
    let trimmed_url = trim_text(image_url);
    let tag_bytes = trimmed_tag.as_bytes();
    let url_bytes = trimmed_url.as_bytes();
    if trimmed_tag.is_empty() || tag_bytes.len() > MAX_ALLIANCE_TAG_LEN {
        return Err(GameStateError::InvalidArgs);
    }
    if url_bytes.len() > MAX_ALLIANCE_IMAGE_URL_LEN {
        return Err(GameStateError::InvalidArgs);
    }
    if !trimmed_url.is_empty() {
        let https: [u8; 8] = [104u8, 116, 116, 112, 115, 58, 47, 47];
        let http: [u8; 7] = [104u8, 116, 116, 112, 58, 47, 47];
        assert(https@ =~= https_prefix());
        assert(http@ =~= http_prefix());
        if !bytes_start_with(url_bytes, vstd::array::array_as_slice(&https))
            && !bytes_start_with(url_bytes, vstd::array::array_as_slice(&http)) {
            return Err(GameStateError::InvalidArgs);
        }
    }
    let store = accounts.store_config;
    if !store.enabled {
        return Err(GameStateError::StoreDisabled);
    }
    if !store.treasury_usdc_account.same_as(&accounts.treasury_usdc_account) {
        return Err(GameStateError::InvalidUsdcAccount);
    }
    if !accounts.treasury_antimatter.owner.same_as(&store.admin) {
        return Err(GameStateError::InvalidAntimatterAccount);
    }
    if !is_associated_token_account(&accounts.treasury_antimatter_account, &store.admin, &accounts.antimatter_mint) {
        return Err(GameStateError::InvalidAntimatterAccount);
    }
    if accounts.user_antimatter.amount < ALLIANCE_CREATE_ANTIMATTER_COST {
        return Err(GameStateError::InsufficientAntimatter);
    }
    let burnt = match burn_antimatter(
        accounts.antimatter_mint_decimals,
        accounts.antimatter_mint,
        &accounts.user_antimatter,
        authority,
        ALLIANCE_CREATE_ANTIMATTER_BURN,
    ) {
        Err(e) => {
            return Err(e);
        },
        Ok(a) => a,
    };
    let paid = match transfer_antimatter(
        accounts.antimatter_mint_decimals,
        accounts.antimatter_mint,
        &accounts.user_antimatter,
        &accounts.treasury_antimatter,
        authority,
        ALLIANCE_CREATE_ANTIMATTER_TREASURY,
    ) {
        Err(e) => {
            return Err(e);
        },
        Ok(a) => a,
    };
    let usdc = match transfer_usdc(
        accounts.usdc_mint_decimals,
        accounts.usdc_mint,
        &accounts.user_usdc,
        &accounts.treasury_usdc,
        authority,
        ALLIANCE_CREATE_USDC_COST,
    ) {
        Err(e) => {
            return Err(e);
        },
        Ok(a) => a,
    };
    let alliance = AllianceState {
        founder: authority,
        name: copy_name(name, "Alliance"),
        level: 1,
        xp: 0,
        member_count: 1,
        max_members: alliance_max_members(1),
        total_missions_completed: 0,
        created_at: now,
        bump: alliance_bump,
    };
    let metadata = AllianceMetadata {
        alliance: alliance_key,
        tag: pad_bytes(tag_bytes, MAX_ALLIANCE_TAG_LEN),
        image_url: pad_bytes(url_bytes, MAX_ALLIANCE_IMAGE_URL_LEN),
        bump: metadata_bump,
    };
    let membership = init_alliance_membership(authority, alliance_key, ALLIANCE_ROLE_LEADER, now, membership_bump);
    Ok(Founding {
        alliance,
        metadata,
        membership,
        antimatter_burnt: burnt,
        antimatter_to_treasury: paid,
        usdc_to_treasury: usdc,
    })
}

} // verus!
