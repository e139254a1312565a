use vstd::prelude::*;

verus! {

/// A 32-byte account address.
#[derive(Clone, Copy, Debug, Hash)]
pub struct Pubkey {
    pub bytes: [u8; 32],
}

impl View for Pubkey {
    type V = Seq<u8>;

    open spec fn view(&self) -> Seq<u8> {
        self.bytes@
    }
}

/// The all-zero address (`Pubkey::default()`).
pub open spec fn zero_address() -> Seq<u8> {
    Seq::new(32, |i: int| 0u8)
}

impl Pubkey {
    pub fn new_from_array(bytes: [u8; 32]) -> (res: Pubkey)
        ensures
            res@ == bytes@,
    {
        Pubkey { bytes }
    }

    /// Whether this is the all-zero address.
    pub fn is_default(&self) -> (res: bool)
        ensures
            res == (self@ == zero_address()),
    {
        let z = Pubkey::default();
        self.same(&z)
    }

    /// Compares two addresses byte by byte.
    pub fn same(&self, other: &Pubkey) -> (res: bool)
        ensures
            res == (self@ == other@),
    {
        let mut i: usize = 0;
        while i < 32
            invariant
                0 <= i <= 32,
                forall|j: int| 0 <= j < i ==> self.bytes@[j] == other.bytes@[j],
            decreases 32 - i,
        {
            if self.bytes[i] != other.bytes[i] {
                return false;
            }
            i = i + 1;
        }
        assert(self@ =~= other@);
        true
    }
}

impl PartialEq for Pubkey {
    fn eq(&self, other: &Self) -> (res: bool) {
        self.same(other)
    }
}

impl vstd::std_specs::cmp::PartialEqSpecImpl for Pubkey {
    open spec fn obeys_eq_spec() -> bool {
        true
    }

    open spec fn eq_spec(&self, other: &Self) -> bool {
        self@ == other@
    }
}

impl Eq for Pubkey {}

impl Default for Pubkey {
    fn default() -> (res: Pubkey)
        ensures
            res@ == zero_address(),
    {
        let res = Pubkey { bytes: [0u8; 32] };
        assert(res@ =~= zero_address());
        res
    }
}

/// Base58 text of an address, as `Display` for `solana_sdk::pubkey::Pubkey` writes it.
pub uninterp spec fn base58_text(bytes: Seq<u8>) -> Seq<char>;

/// The address that a base58 text names, as `FromStr` for `solana_sdk::pubkey::Pubkey`
/// parses it (`None` where it reports an error).
pub uninterp spec fn parse_base58(text: Seq<char>) -> Option<Seq<u8>>;

/// The program-derived address and bump seed for `seeds` under `program_id`, as
/// `Pubkey::try_find_program_address` finds them (`None` where it finds none).
pub uninterp spec fn program_address(seeds: Seq<Seq<u8>>, program_id: Seq<u8>) -> Option<(Seq<u8>, u8)>;

/// The program-derived address of `seeds` under `program_id`, without its bump seed.
pub open spec fn pda(seeds: Seq<Seq<u8>>, program_id: Seq<u8>) -> Option<Seq<u8>> {
    match program_address(seeds, program_id) {
        Some((a, _)) => Some(a),
        None => None,
    }
}

/// The view of an optional address.
pub open spec fn opt_view(o: Option<Pubkey>) -> Option<Seq<u8>> {
    match o {
        Some(pk) => Some(pk@),
        None => None,
    }
}

/// The views of a list of seeds.
pub open spec fn seeds_view(seeds: Seq<Vec<u8>>) -> Seq<Seq<u8>> {
    seeds.map_values(|s: Vec<u8>| s@)
}

impl Pubkey {
    /// `Display` of `solana_sdk::pubkey::Pubkey`: its text is named by `base58_text`, and
    /// `FromStr` reads that text back as the same address. The source writes the text with
    /// `five8::encode_32` into at most 44 characters, and parses up to 44 characters with
    /// `five8::decode_32`, whose tests check that it inverts `encode_32`.
    #[verifier::external_body]
    fn display_text(&self) -> (res: String)
        ensures
            res@ == base58_text(self@),
            parse_base58(res@) == Some(self@),
    {
        solana_sdk::pubkey::Pubkey::new_from_array(self.bytes).to_string()
    }

    /// `FromStr` of `solana_sdk::pubkey::Pubkey`; its result is named by `parse_base58`.
    #[verifier::external_body]
    fn parse_text(text: &str) -> (res: Option<Pubkey>)
        ensures
            match res {
                Some(pk) => parse_base58(text@) == Some(pk@),
                None => parse_base58(text@) is None,
            },
    {
        text.parse::<solana_sdk::pubkey::Pubkey>().ok().map(|pk| Pubkey { bytes: pk.to_bytes() })
    }

    /// The base58 text of the address; parsing it gives the address back.
    pub fn to_string(&self) -> (res: String)
        ensures
            res@ == base58_text(self@),
            parse_base58(res@) == Some(self@),
    {
        self.display_text()
    }

    /// The address a base58 text names, `None` where it names none.
    pub fn from_base58(text: &str) -> (res: Option<Pubkey>)
        ensures
            match res {
                Some(pk) => parse_base58(text@) == Some(pk@),
                None => parse_base58(text@) is None,
            },
    {
        Pubkey::parse_text(text)
    }

    /// `Pubkey::try_find_program_address` (solana_sdk): the program-derived address and bump
    /// seed of `seeds` under `program_id`, named by `program_address`.
    #[verifier::external_body]
    pub(crate) fn try_find_program_address(seeds: &Vec<Vec<u8>>, program_id: &Pubkey) -> (res: Option<(Pubkey, u8)>)
        ensures
            match res {
                Some((pk, bump)) => program_address(seeds_view(seeds@), program_id@) == Some((pk@, bump)),
                None => program_address(seeds_view(seeds@), program_id@) is None,
            },
    {
        let seeds: Vec<&[u8]> = seeds.iter().map(|s| s.as_slice()).collect();
        let program_id = solana_sdk::pubkey::Pubkey::new_from_array(program_id.bytes);
        solana_sdk::pubkey::Pubkey::try_find_program_address(&seeds, &program_id).map(|(pk, bump)| (Pubkey { bytes: pk.to_bytes() }, bump))
    }

    /// `Pubkey::find_program_address` (solana_sdk): its source returns the result of
    /// `try_find_program_address` and panics where that is `None` (excluded by `requires`).
    #[verifier::external_body]
    pub(crate) fn find_program_address(seeds: &Vec<Vec<u8>>, program_id: &Pubkey) -> (res: (Pubkey, u8))
        requires
            program_address(seeds_view(seeds@), program_id@) is Some,
        ensures
            program_address(seeds_view(seeds@), program_id@) == Some((res.0@, res.1)),
    {
        let seeds: Vec<&[u8]> = seeds.iter().map(|s| s.as_slice()).collect();
        let program_id = solana_sdk::pubkey::Pubkey::new_from_array(program_id.bytes);
        let (pk, bump) = solana_sdk::pubkey::Pubkey::find_program_address(&seeds, &program_id);
        (Pubkey { bytes: pk.to_bytes() }, bump)
    }
}

} // verus!
