//! The state store: an image of the backing file, and the operations that
//! read, write and flip the screen state held in it.
//!
//! The file is the single source of truth. A store is the image of one
//! moment: the caller fills it from the file before an operation and carries
//! its contents back after one that wrote.

use vstd::prelude::*;
use crate::state::{decode, lemma_decode_inverts_encoding, ScreenState, StateError};

verus! {

/// Image of the backing file: the text in it, or nothing where the file
/// cannot be opened (no such device, no permission).
#[derive(Debug, PartialEq, Eq)]
pub struct StateStore {
    contents: Option<String>,
}

/// What a read and a flip at the start of one admitted trigger found and did.
#[derive(Debug, Clone, Copy, PartialEq, Eq)]
pub struct FlipReport {
    /// The state that was read before anything was written.
    pub observed: Result<ScreenState, StateError>,
    /// How the flip that followed ended.
    pub flipped: Result<(), StateError>,
}

impl View for StateStore {
    type V = Option<Seq<char>>;

    closed spec fn view(&self) -> Option<Seq<char>> {
        match self.contents {
            Some(text) => Some(text@),
            None => None,
        }
    }
}

/// What reading a store with this image yields: `Io` where the file cannot
/// be opened, else the decoding of its text.
pub open spec fn read_result(image: Option<Seq<char>>) -> Result<ScreenState, StateError> {
    match image {
        Some(text) => decode(text),
        None => Err(StateError::Io),
    }
}

/// How writing to a store with this image ends: `Io` where the file cannot
/// be opened, else success.
pub open spec fn write_result(image: Option<Seq<char>>) -> Result<(), StateError> {
    match image {
        Some(_) => Ok(()),
        None => Err(StateError::Io),
    }
}

/// The image after writing `state`: its encoding in place of whatever the
/// file held. A file that cannot be opened stays as it is.
pub open spec fn image_after_write(image: Option<Seq<char>>, state: ScreenState) -> Option<
    Seq<char>,
> {
    match image {
        Some(_) => Some(state.encoding()),
        None => None,
    }
}

/// How a flip of a store with this image ends: with the error of the read
/// where the read fails, else as the write of the inverse state does.
pub open spec fn flip_result(image: Option<Seq<char>>) -> Result<(), StateError> {
    match read_result(image) {
        Ok(_) => write_result(image),
        Err(e) => Err(e),
    }
}

/// The image after a flip: the inverse of the state that was read, written
/// over the old text. Where the read fails nothing is written.
pub open spec fn image_after_flip(image: Option<Seq<char>>) -> Option<Seq<char>> {
    match read_result(image) {
        Ok(state) => image_after_write(image, state.inverse()),
        Err(_) => image,
    }
}

impl StateStore {
    /// The image of a file that holds `contents`.
    pub fn new(contents: String) -> (store: StateStore)
        ensures
            store@ == Some(contents@),
    {
        StateStore { contents: Some(contents) }
    }

    /// The image of a file that cannot be opened.
    pub fn unavailable() -> (store: StateStore)
        ensures
            store@ == None::<Seq<char>>,
    {
        StateStore { contents: None }
    }

    /// The text in the file, if it can be opened.
    pub fn contents(&self) -> (text: Option<&str>)
        ensures
            (text is Some) == (self@ is Some),
            text matches Some(held) ==> self@ == Some(held@),
    {
        match &self.contents {
            Some(held) => Some(held.as_str()),
            None => None,
        }
    }

    /// Replaces the text in the file by the encoding of `state`. Fails with
    /// `Io`, and changes nothing, where the file cannot be opened.
    pub fn write(&mut self, state: ScreenState) -> (written: Result<(), StateError>)
        ensures
            written == write_result(old(self)@),
            final(self)@ == image_after_write(old(self)@, state),
    {
        if self.contents.is_none() {
            return Err(StateError::Io);
        }
        self.contents = Some(state.value().to_owned());
        Ok(())
    }
}

/// Reads the screen state from the store. The store is left as it is, so a
/// second read with no write in between yields the same result.
pub fn check_screen_state(store: &StateStore) -> (state: Result<ScreenState, StateError>)
    ensures
        state == read_result(store@),
{
    match &store.contents {
        Some(text) => ScreenState::from_text(text.as_str()),
        None => Err(StateError::Io),
    }
}

/// Writes `On` to the store.
pub fn screen_on(store: &mut StateStore) -> (written: Result<(), StateError>)
    ensures
        written == write_result(old(store)@),
        final(store)@ == image_after_write(old(store)@, ScreenState::On),
{
    store.write(ScreenState::On)
}

/// Writes `Off` to the store.
pub fn screen_off(store: &mut StateStore) -> (written: Result<(), StateError>)
    ensures
        written == write_result(old(store)@),
        final(store)@ == image_after_write(old(store)@, ScreenState::Off),
{
    store.write(ScreenState::Off)
}

/// Flips the screen state: reads it and writes its inverse. Where the read
/// fails, the flip fails with the same error and writes nothing.
pub fn flip_screen_state(store: &mut StateStore) -> (flipped: Result<(), StateError>)
    ensures
        flipped == flip_result(old(store)@),
        final(store)@ == image_after_flip(old(store)@),
{
    match check_screen_state(store) {
        Ok(ScreenState::On) => screen_off(store),
        Ok(ScreenState::Off) => screen_on(store),
        Err(e) => Err(e),
    }
}

/// Reads the state for the status line, then flips it. The report holds the
/// state as it was found, before the flip, and how the flip ended.
pub fn check_and_flip(store: &mut StateStore) -> (report: FlipReport)
    ensures
        report.observed == read_result(old(store)@),
        report.flipped == flip_result(old(store)@),
        final(store)@ == image_after_flip(old(store)@),
{
    let observed = check_screen_state(store);
    let flipped = flip_screen_state(store);
    FlipReport { observed, flipped }
}

/// Two reads of one store, with no write between them, yield the same
/// result.
pub proof fn lemma_read_is_repeatable(
    store: StateStore,
    first: Result<ScreenState, StateError>,
    second: Result<ScreenState, StateError>,
)
    requires
        call_ensures(check_screen_state, (&store,), first),
        call_ensures(check_screen_state, (&store,), second),
    ensures
        first == second,
{
}

/// After `state` has been written to a store whose file can be opened, a
/// flip succeeds and leaves the encoding of the inverse state in the store,
/// which then reads as that inverse.
pub proof fn lemma_flip_inverts_written_state(image: Option<Seq<char>>, state: ScreenState)
    requires
        write_result(image) is Ok,
    ensures
        flip_result(image_after_write(image, state)) == Ok::<(), StateError>(()),
        image_after_flip(image_after_write(image, state)) == Some(state.inverse().encoding()),
        read_result(image_after_flip(image_after_write(image, state))) == Ok::<
            ScreenState,
            StateError,
        >(state.inverse()),
{
    lemma_decode_inverts_encoding(state);
    lemma_decode_inverts_encoding(state.inverse());
}

/// A flip of a store that reads as `state` succeeds, and the store then
/// holds the encoding of the inverse of `state`.
pub proof fn lemma_flip_inverts_valid_store(image: Option<Seq<char>>, state: ScreenState)
    requires
        read_result(image) == Ok::<ScreenState, StateError>(state),
    ensures
        flip_result(image) == Ok::<(), StateError>(()),
        image_after_flip(image) == Some(state.inverse().encoding()),
        read_result(image_after_flip(image)) == Ok::<ScreenState, StateError>(state.inverse()),
{
    lemma_decode_inverts_encoding(state.inverse());
}

/// A flip of a store whose text is neither encoding fails with
/// `UnknownStateRepresentation` and leaves the text as it was.
pub proof fn lemma_flip_rejects_invalid_text(text: Seq<char>)
    requires
        text != ScreenState::On.encoding(),
        text != ScreenState::Off.encoding(),
    ensures
        flip_result(Some(text)) == Err::<(), StateError>(StateError::UnknownStateRepresentation),
        image_after_flip(Some(text)) == Some(text),
{
}

/// Where the read fails, for whatever reason, the flip fails with the same
/// error and the store stays as it was.
pub proof fn lemma_failed_read_fails_flip(image: Option<Seq<char>>, e: StateError)
    requires
        read_result(image) == Err::<ScreenState, StateError>(e),
    ensures
        flip_result(image) == Err::<(), StateError>(e),
        image_after_flip(image) == image,
{
}

/// Two flips in a row leave the store as it was, whatever it held.
pub proof fn lemma_flip_twice_restores_store(image: Option<Seq<char>>)
    ensures
        image_after_flip(image_after_flip(image)) == image,
{
    if let Ok(state) = read_result(image) {
        lemma_decode_inverts_encoding(state.inverse());
    }
}

} // verus!
