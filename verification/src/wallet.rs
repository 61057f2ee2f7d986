//! A wallet that holds a BIP-39 mnemonic phrase.

use vstd::prelude::*;

use bip39::{ErrorKind, Language, Mnemonic, MnemonicType, Seed};
use vstd::string::*;

verus! {

/// A BIP-39 mnemonic of `tiny-bip39`, carried through unread.
#[verifier::external_type_specification]
#[verifier::external_body]
pub struct ExMnemonic(bip39::Mnemonic);

/// An error of `tiny-bip39`.
#[verifier::external_type_specification]
#[verifier::external_body]
pub struct ExMnemonicError(bip39::ErrorKind);

/// An I/O error of the standard library.
#[verifier::external_type_specification]
#[verifier::external_body]
pub struct ExIoError(std::io::Error);

/// Whether `Mnemonic::validate` accepts the phrase as an English BIP-39 phrase.
pub uninterp spec fn bip39_valid(phrase: Seq<char>) -> bool;

/// Whether `Mnemonic::from_phrase` accepts the phrase as an English BIP-39
/// phrase (after normalising its whitespace and characters).
pub uninterp spec fn bip39_parses(phrase: Seq<char>) -> bool;

/// The phrase that `Mnemonic::from_phrase` keeps for an accepted phrase: its
/// words, each normalised (NFKD), joined by single spaces.
pub uninterp spec fn bip39_phrase_of(phrase: Seq<char>) -> Seq<char>;

/// The number of spaces in a text.
pub open spec fn space_count(s: Seq<char>) -> nat {
    s.filter(|c: char| c == ' ').len()
}

/// Whether a phrase is lowercase ASCII words separated by single spaces, with
/// no space at either end: a phrase that normalising leaves as it is.
pub open spec fn is_plain_phrase(p: Seq<char>) -> bool {
    &&& p.len() > 0
    &&& forall|i: int| 0 <= i < p.len() ==> (('a' <= #[trigger] p[i] && p[i] <= 'z') || p[i] == ' ')
    &&& p[0] != ' '
    &&& p[p.len() - 1] != ' '
    &&& forall|i: int| 0 <= i < p.len() - 1 && #[trigger] p[i] == ' ' ==> p[i + 1] != ' '
}

/// Whether `Wallet::from_phrase` accepts a phrase: it validates and parses.
pub open spec fn accepted_phrase(p: Seq<char>) -> bool {
    bip39_valid(p) && bip39_parses(p)
}

/// The phrase that `Wallet::from_phrase` keeps for an accepted phrase: a plain
/// phrase as it is, any other in `tiny-bip39`'s normal form.
pub open spec fn kept_phrase(p: Seq<char>) -> Seq<char> {
    if is_plain_phrase(p) {
        p
    } else {
        bip39_phrase_of(p)
    }
}

/// Whether a phrase is one that `Wallet::new` gives: twelve words, plain,
/// accepted.
pub open spec fn fresh_phrase(p: Seq<char>) -> bool {
    &&& space_count(p) == 11
    &&& is_plain_phrase(p)
    &&& accepted_phrase(p)
}

/// The BIP-39 seed, with an empty password, of a mnemonic with this phrase:
/// what `Seed::new` derives from the phrase (PBKDF2 with salt `mnemonic`).
pub uninterp spec fn bip39_seed(phrase: Seq<char>) -> Seq<u8>;

/// A BIP-39 mnemonic with a copy of its phrase (`Mnemonic::phrase`) as text.
///
/// Every constructor takes the text from the mnemonic itself, so the text is
/// always the mnemonic's phrase.
pub struct PhrasedMnemonic {
    mnemonic: Mnemonic,
    phrase: String,
}

/// `Mnemonic::new(MnemonicType::Words12, Language::English)`: a mnemonic of
/// twelve English words from fresh random entropy, with its phrase.
///
/// The words rest on chance. Claimed, as the source shows
/// (`from_entropy_unchecked` joins words of the English wordlist, all lowercase
/// ASCII, with single spaces, after the entropy's own checksum): the phrase is
/// plain, has twelve words, validates and parses.
#[verifier::external_body]
fn generate_mnemonic() -> (r: PhrasedMnemonic)
    ensures
        space_count(r.phrase_text()) == 11,
        is_plain_phrase(r.phrase_text()),
        bip39_valid(r.phrase_text()),
        bip39_parses(r.phrase_text()),
{
    let mnemonic = Mnemonic::new(MnemonicType::Words12, Language::English);
    let phrase = mnemonic.phrase().to_owned();
    PhrasedMnemonic { mnemonic, phrase }
}

/// `Mnemonic::validate(phrase, Language::English)`.
///
/// Claimed: the result is `Ok` exactly when `bip39_valid` holds of the phrase.
#[verifier::external_body]
fn validate_phrase(phrase: &str) -> (r: Result<(), ErrorKind>)
    ensures
        r is Ok == bip39_valid(phrase@),
{
    Mnemonic::validate(phrase, Language::English)
}

/// `Mnemonic::from_phrase(phrase, Language::English)`, with the phrase the
/// mnemonic keeps.
///
/// Claimed: the result is `Ok` exactly when `bip39_parses` holds of the phrase;
/// the phrase kept is `bip39_phrase_of` the phrase, which the source builds by
/// splitting at whitespace, normalising each word (NFKD) and joining with
/// single spaces, so that a plain phrase is kept as it is.
#[verifier::external_body]
fn parse_phrase(phrase: &str) -> (r: Result<PhrasedMnemonic, ErrorKind>)
    ensures
        r is Ok == bip39_parses(phrase@),
        r matches Ok(m) ==> m.phrase_text() == bip39_phrase_of(phrase@) && (is_plain_phrase(
            phrase@,
        ) ==> m.phrase_text() == phrase@),
{
    let mnemonic = Mnemonic::from_phrase(phrase, Language::English)?;
    let kept = mnemonic.phrase().to_owned();
    Ok(PhrasedMnemonic { mnemonic, phrase: kept })
}

/// `Mnemonic::phrase`: a copy of the words of the mnemonic.
///
/// The mnemonic is opaque here, so nothing is claimed of the text.
#[verifier::external_body]
fn mnemonic_phrase(mnemonic: &Mnemonic) -> (r: String) {
    mnemonic.phrase().to_owned()
}

/// `Seed::new(mnemonic, "")`, as bytes (`Seed::as_bytes`).
///
/// Claimed: the bytes are `bip39_seed` of the mnemonic's phrase (which the
/// `PhrasedMnemonic` holds as its text), and there are 64 of them
/// (`PBKDF2_BYTES` in the source).
#[verifier::external_body]
fn seed_bytes(m: &PhrasedMnemonic) -> (r: Vec<u8>)
    ensures
        r@ == bip39_seed(m.phrase_text()),
        r@.len() == 64,
{
    Seed::new(&m.mnemonic, "").as_bytes().to_vec()
}

impl PhrasedMnemonic {
    /// The mnemonic.
    pub closed spec fn mnemonic(&self) -> Mnemonic {
        self.mnemonic
    }

    /// The mnemonic's phrase.
    pub closed spec fn phrase_text(&self) -> Seq<char> {
        self.phrase@
    }

    /// The mnemonic with its phrase, read from it.
    pub fn new(mnemonic: Mnemonic) -> (r: Self)
        ensures
            r.mnemonic() == mnemonic,
    {
        let phrase = mnemonic_phrase(&mnemonic);
        PhrasedMnemonic { mnemonic, phrase }
    }

    /// The mnemonic's phrase.
    pub fn phrase(&self) -> (r: &str)
        ensures
            r@ == self.phrase_text(),
    {
        self.phrase.as_str()
    }
}

/// An error of a wallet operation.
#[derive(Debug)]
pub enum WalletError {
    /// Reading or writing the wallet file failed.
    IoError(std::io::Error),
    /// The mnemonic phrase is not valid.
    MnemonicError(ErrorKind),
}

/// A wallet: a mnemonic phrase from which keys are derived.
pub struct Wallet {
    mnemonic: PhrasedMnemonic,
}

impl Wallet {
    /// The mnemonic of the wallet.
    pub closed spec fn mnemonic(&self) -> PhrasedMnemonic {
        self.mnemonic
    }

    /// The phrase of the wallet's mnemonic.
    pub open spec fn phrase_text(&self) -> Seq<char> {
        self.mnemonic().phrase_text()
    }

    /// A wallet with a fresh random twelve-word English mnemonic. Its phrase is
    /// plain (so it is kept as it is when read back), validates and parses.
    /// Never fails.
    pub fn new() -> (r: Result<Self, WalletError>)
        ensures
            match r {
                Ok(w) => fresh_phrase(w.phrase_text()),
                Err(_) => false,
            },
    {
        Self::from_mnemonic(generate_mnemonic())
    }

    /// The wallet of an English mnemonic phrase: `MnemonicError` when the
    /// phrase does not validate, or when it cannot be read as a mnemonic.
    /// The wallet keeps the normalised phrase (`bip39_phrase_of`), which is the
    /// phrase itself when it is plain.
    pub fn from_phrase(phrase: &str) -> (r: Result<Self, WalletError>)
        ensures
            r is Ok == accepted_phrase(phrase@),
            r is Err ==> r matches Err(WalletError::MnemonicError(_)),
            r matches Ok(w) ==> w.phrase_text() == kept_phrase(phrase@),
    {
        match validate_phrase(phrase) {
            Ok(()) => {},
            Err(e) => {
                return Err(WalletError::MnemonicError(e));
            },
        }
        match parse_phrase(phrase) {
            Ok(mnemonic) => Self::from_mnemonic(mnemonic),
            Err(e) => Err(WalletError::MnemonicError(e)),
        }
    }

    /// The wallet of a mnemonic; it keeps the mnemonic and its phrase. Never
    /// fails.
    pub fn from_mnemonic(mnemonic: PhrasedMnemonic) -> (r: Result<Self, WalletError>)
        ensures
            match r {
                Ok(w) => w.mnemonic() == mnemonic && w.phrase_text() == mnemonic.phrase_text(),
                Err(_) => false,
            },
    {
        Ok(Wallet { mnemonic })
    }

    /// The mnemonic phrase.
    pub fn phrase(&self) -> (r: &str)
        ensures
            r@ == self.phrase_text(),
    {
        self.mnemonic.phrase()
    }

    /// The seed of the wallet, as bytes: the 64-byte BIP-39 seed of its
    /// mnemonic with an empty password.
    pub fn seed(&self) -> (r: Vec<u8>)
        ensures
            r@ == bip39_seed(self.phrase_text()),
            r@.len() == 64,
    {
        seed_bytes(&self.mnemonic)
    }
}

/// A new wallet's phrase reads back as the same wallet: `from_phrase` accepts
/// it and keeps that very phrase.
pub proof fn law_new_phrase_reloads(p: Seq<char>)
    requires
        fresh_phrase(p),
    ensures
        accepted_phrase(p),
        kept_phrase(p) == p,
{
}

} // verus!
