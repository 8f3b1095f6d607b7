//! The wallet registry: addresses of generated wallets and their keys.
use vstd::prelude::*;
use vstd::string::*;
use ethers::signers::Signer;
use crate::address::{address_display, address_to_text};
use crate::encoding::{bytes_of_hex, hex_encode, hex_of, is_hex_text, lemma_hex_round_trip};

verus! {

/// The address that a 32-byte private key controls, when the key is a valid
/// secp256k1 scalar.
pub uninterp spec fn wallet_address_of(key: Seq<u8>) -> Option<Seq<u8>>;

/// Relies on ethers' `LocalWallet::from_bytes` and `address`: the key is read
/// as a secp256k1 signing key, and its address is twenty bytes.
#[verifier::external_body]
pub(crate) fn derive_address(key: &[u8]) -> (r: Option<Vec<u8>>)
    requires
        key@.len() == 32,
    ensures
        r.is_some() == wallet_address_of(key@).is_some(),
        r.is_some() ==> r.unwrap()@ == wallet_address_of(key@).unwrap(),
        r.is_some() ==> r.unwrap()@.len() == 20,
{
    ethers::signers::LocalWallet::from_bytes(key).ok().map(|w| w.address().as_bytes().to_vec())
}

/// Relies on rand's `thread_rng` filling a 32-byte buffer.
#[verifier::external_body]
pub(crate) fn random_key() -> (r: Vec<u8>)
    ensures
        r@.len() == 32,
{
    let mut b = [0u8; 32];
    rand::Rng::fill(&mut rand::thread_rng(), &mut b);
    b.to_vec()
}

/// One generated wallet: its address and its private key in hexadecimal.
pub struct WalletEntry {
    pub address: Vec<u8>,
    pub key_hex: String,
}

/// What a list of entries maps each address to; a later entry wins.
pub open spec fn map_of(s: Seq<(Seq<u8>, Seq<char>)>) -> Map<Seq<u8>, Seq<char>>
    decreases s.len(),
{
    if s.len() == 0 {
        Map::empty()
    } else {
        map_of(s.drop_last()).insert(s.last().0, s.last().1)
    }
}

/// The stored key re-derives the address that it is filed under.
pub open spec fn key_matches(address: Seq<u8>, key_hex: Seq<char>) -> bool {
    &&& is_hex_text(key_hex)
    &&& bytes_of_hex(key_hex).len() == 32
    &&& wallet_address_of(bytes_of_hex(key_hex)) == Some(address)
}

/// The in-memory map from address to private key of the wallets generated in
/// this process.
pub struct WalletRegistry {
    entries: Vec<WalletEntry>,
}

impl WalletRegistry {
    pub closed spec fn pairs(&self) -> Seq<(Seq<u8>, Seq<char>)> {
        self.entries@.map_values(|e: WalletEntry| (e.address@, e.key_hex@))
    }

    /// The registry as a map from address to hexadecimal key.
    pub closed spec fn view(&self) -> Map<Seq<u8>, Seq<char>> {
        map_of(self.pairs())
    }

    /// Every stored key derives the address that it is stored under.
    pub closed spec fn wf(&self) -> bool {
        forall|i: int|
            0 <= i < self.entries@.len() ==> key_matches(
                #[trigger] self.entries@[i].address@,
                self.entries@[i].key_hex@,
            )
    }

    pub fn new() -> (r: WalletRegistry)
        ensures
            r.wf(),
            r.view() == Map::<Seq<u8>, Seq<char>>::empty(),
    {
        WalletRegistry { entries: Vec::new() }
    }

    /// The hexadecimal key stored for an address.
    pub fn lookup(&self, address: &[u8]) -> (r: Option<String>)
        ensures
            r.is_some() == self.view().contains_key(address@),
            r.is_some() ==> r.unwrap()@ == self.view()[address@],
    {
        let n = self.entries.len();
        let mut i: usize = n;
        while i > 0
            invariant
                i <= n == self.entries@.len(),
                forall|j: int| i <= j < n ==> self.pairs()[j].0 != address@,
            decreases i,
        {
            let e = &self.entries[i - 1];
            if bytes_equal(e.address.as_slice(), address) {
                proof {
                    lemma_map_of_suffix_free(self.pairs(), i as int, address@);
                    assert(self.pairs().take(i as int).drop_last() =~= self.pairs().take(i - 1));
                }
                return Some(e.key_hex.clone());
            }
            i = i - 1;
        }
        proof {
            lemma_map_of_suffix_free(self.pairs(), 0, address@);
            assert(self.pairs().take(0) =~= Seq::<(Seq<u8>, Seq<char>)>::empty());
        }
        None
    }

    /// Files a freshly generated key under the address that it derives.
    fn insert(&mut self, address: Vec<u8>, key_hex: String)
        requires
            old(self).wf(),
            key_matches(address@, key_hex@),
        ensures
            final(self).wf(),
            final(self).view() == old(self).view().insert(address@, key_hex@),
    {
        let ghost before = self.pairs();
        self.entries.push(WalletEntry { address, key_hex });
        assert(self.pairs().drop_last() =~= before);
    }
}

/// Byte strings with the same bytes.
pub fn bytes_equal(a: &[u8], b: &[u8]) -> (r: bool)
    ensures
        r == (a@ == b@),
{
    if a.len() != b.len() {
        return false;
    }
    let mut i: usize = 0;
    while i < a.len()
        invariant
            a@.len() == b@.len(),
            forall|j: int| 0 <= j < i ==> a@[j] == b@[j],
        decreases a.len() - i,
    {
        if a[i] != b[i] {
            return false;
        }
        i = i + 1;
    }
    assert(a@ =~= b@);
    true
}

/// With no entry for `a` from position `i` on, the whole list maps `a` as its
/// first `i` entries do.
proof fn lemma_map_of_suffix_free(s: Seq<(Seq<u8>, Seq<char>)>, i: int, a: Seq<u8>)
    requires
        0 <= i <= s.len(),
        forall|j: int| i <= j < s.len() ==> s[j].0 != a,
    ensures
        map_of(s).contains_key(a) == map_of(s.take(i)).contains_key(a),
        map_of(s).contains_key(a) ==> map_of(s)[a] == map_of(s.take(i))[a],
    decreases s.len(),
{
    if s.len() == i {
        assert(s.take(i) =~= s);
    } else {
        let t = s.drop_last();
        assert(t.take(i) =~= s.take(i));
        lemma_map_of_suffix_free(t, i, a);
    }
}

/// Every address in a list's map comes from an entry filed under it.
proof fn lemma_map_of_entry(s: Seq<(Seq<u8>, Seq<char>)>, a: Seq<u8>) -> (i: int)
    requires
        map_of(s).contains_key(a),
    ensures
        0 <= i < s.len(),
        s[i].0 == a,
        s[i].1 == map_of(s)[a],
    decreases s.len(),
{
    if s.last().0 == a {
        s.len() - 1
    } else {
        lemma_map_of_entry(s.drop_last(), a)
    }
}

/// Re-deriving the address from the key stored for it gives the same address.
pub proof fn lemma_stored_key_rederives(reg: &WalletRegistry, a: Seq<u8>)
    requires
        reg.wf(),
        reg.view().contains_key(a),
    ensures
        is_hex_text(reg.view()[a]),
        wallet_address_of(bytes_of_hex(reg.view()[a])) == Some(a),
{
    let i = lemma_map_of_entry(reg.pairs(), a);
    assert(reg.pairs()[i] == (reg.entries@[i].address@, reg.entries@[i].key_hex@));
}

/// The message that reports a new wallet.
pub open spec fn generated_message(address: Seq<u8>, key: Seq<u8>) -> Seq<char> {
    "Generated new Ethereum wallet:\nAddress: "@ + address_display(address) + "\nPrivate Key: "@
        + hex_of(key)
}

/// Files a wallet for the given random key, reporting its address and key;
/// a key that is no valid signing key is reported as a failure and filed
/// nowhere.
pub fn generate_wallet_from(reg: &mut WalletRegistry, key: &[u8]) -> (r: String)
    requires
        old(reg).wf(),
        key@.len() == 32,
    ensures
        final(reg).wf(),
        wallet_address_of(key@) is None ==> r@ == "Failed to generate wallet"@ && *final(reg)
            == *old(reg),
        wallet_address_of(key@) is Some ==> {
            let a = wallet_address_of(key@).unwrap();
            &&& final(reg).view() == old(reg).view().insert(a, hex_of(key@))
            &&& r@ == generated_message(a, key@)
        },
{
    let key_hex = hex_encode(key);
    match derive_address(key) {
        None => String::from_str("Failed to generate wallet"),
        Some(address) => {
            proof {
                lemma_hex_round_trip(key@);
            }
            let mut r = String::from_str("Generated new Ethereum wallet:\nAddress: ");
            let shown = address_to_text(address.as_slice());
            r.append(shown.as_str());
            r.append("\nPrivate Key: ");
            r.append(key_hex.as_str());
            reg.insert(address, key_hex);
            r
        },
    }
}

/// Draws a random key and files a wallet for it, as `generate_wallet_from`.
pub fn eth_generate_wallet(reg: &mut WalletRegistry) -> (r: String)
    requires
        old(reg).wf(),
    ensures
        final(reg).wf(),
        exists|key: Seq<u8>|
            key.len() == 32 && match wallet_address_of(key) {
                None => r@ == "Failed to generate wallet"@ && *final(reg) == *old(reg),
                Some(a) => final(reg).view() == old(reg).view().insert(a, hex_of(key)) && r@
                    == generated_message(a, key),
            },
{
    let key = random_key();
    let r = generate_wallet_from(reg, key.as_slice());
    assert(key@.len() == 32);
    r
}

} // verus!
