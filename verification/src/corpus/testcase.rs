//! The test case: an input with its score, its metadata and the file that
//! may back it.

use vstd::prelude::*;
use core::time::Duration;
use vstd::std_specs::convert::{FromSpecImpl, IntoSpec};
use crate::error::Error;
use crate::inputs::Input;
use crate::serdeany::{SerdeAny, SerdeAnyMap};

verus! {

/// What a test case holds, as plain values.
pub struct TestcaseView<I> {
    /// The input, while it is in memory.
    pub input: Option<I>,
    /// The path of the file that backs the input, if one does.
    pub filename: Option<Seq<char>>,
    /// The score that the feedbacks gave the input.
    pub fitness: u32,
    /// The serial form of each metadata on file, by the key of its kind.
    pub metadatas: Map<u64, Seq<u8>>,
    /// How long the input took to run, once measured.
    pub exec_time: Option<Duration>,
}

impl<I> TestcaseView<I> {
    /// The input can be had: it is in memory, or a file is named that holds it.
    pub open spec fn is_backed(self) -> bool {
        self.input is Some || self.filename is Some
    }

    /// A test case that holds nothing: no input, no file name, no score and
    /// no metadata.
    pub open spec fn empty() -> Self {
        TestcaseView {
            input: None,
            filename: None,
            fitness: 0,
            metadatas: Map::empty(),
            exec_time: None,
        }
    }

    /// A test case as it is first made from `input`: in memory only, with no
    /// score and no metadata.
    pub open spec fn fresh(input: I) -> Self {
        TestcaseView { input: Some(input), ..Self::empty() }
    }

    /// This test case with another score.
    pub open spec fn with_fitness(self, fitness: u32) -> Self {
        TestcaseView { fitness, ..self }
    }

    /// This test case differs from `other` in its metadata at most.
    pub open spec fn same_but_metadatas(self, other: Self) -> bool {
        self == (TestcaseView { metadatas: self.metadatas, ..other })
    }
}

/// The path that an optional file name spells.
pub open spec fn path_of(filename: Option<String>) -> Option<Seq<char>> {
    match filename {
        Some(name) => Some(name@),
        None => None,
    }
}

/// The message of the error that `load_input` gives when nothing backs the
/// test case.
pub open spec fn not_backed_message() -> Seq<char> {
    "No input and no file to load it from"@
}

/// How `load_input` takes a test case from `before` to `after` and what it
/// hands back: an input in memory is handed back as it is; otherwise the
/// backing file is read, and what the read gave is kept and handed back; with
/// neither, the call fails.
pub open spec fn loads<I: Input>(
    before: TestcaseView<I>,
    after: TestcaseView<I>,
    result: Result<I, Error>,
) -> bool {
    match before.input {
        Some(input) => after == before && result == Ok::<I, Error>(input),
        None => match before.filename {
            Some(path) => I::reads(path, result) && match result {
                Ok(input) => after == (TestcaseView { input: Some(input), ..before }),
                Err(_) => after == before,
            },
            None => after == before && (result matches Err(Error::File(message)) && message@
                == not_backed_message()),
        },
    }
}

/// What `store_input` hands back for a test case: without a file name or
/// without an input in memory nothing is written; otherwise the input is
/// written to the file, and the call fails as the write does.
pub open spec fn stores<I: Input>(testcase: TestcaseView<I>, result: Result<bool, Error>) -> bool {
    if testcase.filename is Some && testcase.input is Some {
        let path = testcase.filename->Some_0;
        let input = testcase.input->Some_0;
        match result {
            Ok(stored) => stored && input.writes(path, Ok(())),
            Err(error) => input.writes(path, Err(error)),
        }
    } else {
        result == Ok::<bool, Error>(false)
    }
}

/// What `load_input` hands back after `store_input` wrote the input out and
/// the input was then cleared from memory is what a read of the file gave that
/// the input was written to, and it is in memory from then on. Whether it
/// equals the input that was written is up to the file.
pub proof fn lemma_load_reads_where_store_wrote<I: Input>(
    stored: TestcaseView<I>,
    loaded: TestcaseView<I>,
    result: Result<I, Error>,
)
    requires
        stored.filename is Some,
        stored.input is Some,
        stores(stored, Ok(true)),
        loads((TestcaseView { input: None, ..stored }), loaded, result),
    ensures
        stored.input->Some_0.writes(stored.filename->Some_0, Ok(())),
        I::reads(stored.filename->Some_0, result),
        result matches Ok(input) ==> loaded == (TestcaseView { input: Some(input), ..stored }),
        result is Err ==> loaded == (TestcaseView { input: None, ..stored }),
{
}

/// `From<X> for X` of std: the conversion of a value to its own type hands
/// the value back.
pub assume_specification<X>[ <X as core::convert::From<X>>::from ](t: X) -> (same: X)
    ensures
        same == t,
;

/// An entry of the corpus.
pub struct Testcase<I: Input> {
    /// The input of this test case, while it is in memory.
    input: Option<I>,
    /// The file that backs the input, if one does.
    filename: Option<String>,
    /// The score that the feedbacks gave.
    fitness: u32,
    /// The metadata that the feedbacks attached.
    metadatas: SerdeAnyMap,
    /// How long the input took to run.
    exec_time: Option<Duration>,
}

impl<I: Input> View for Testcase<I> {
    type V = TestcaseView<I>;

    closed spec fn view(&self) -> TestcaseView<I> {
        TestcaseView {
            input: self.input,
            filename: path_of(self.filename),
            fitness: self.fitness,
            metadatas: self.metadatas@,
            exec_time: self.exec_time,
        }
    }
}

impl<I: Input> Testcase<I> {
    /// Hands back the input, reading it from the backing file first if it is
    /// not in memory.
    pub fn load_input(&mut self) -> (result: Result<&I, Error>)
        ensures
            loads(
                old(self)@,
                final(self)@,
                match result {
                    Ok(input) => Ok(*input),
                    Err(error) => Err(error),
                },
            ),
            old(self)@.is_backed() ==> final(self)@.is_backed(),
    {
        if self.input.is_none() {
            match &self.filename {
                Some(name) => {
                    self.input = Some(I::from_file(name.as_str())?);
                },
                None => {
                    return Err(Error::File("No input and no file to load it from".to_owned()));
                },
            }
        }
        Ok(self.input.as_ref().unwrap())
    }

    /// Writes the input to the backing file, where there is one and the input
    /// is in memory; says whether it did.
    pub fn store_input(&mut self) -> (result: Result<bool, Error>)
        ensures
            final(self)@ == old(self)@,
            stores(old(self)@, result),
            final(self)@.is_backed() == old(self)@.is_backed(),
    {
        match (&self.filename, &self.input) {
            (Some(name), Some(input)) => {
                input.to_file(name.as_str())?;
                Ok(true)
            },
            _ => Ok(false),
        }
    }

    /// The input, if it is in memory.
    #[inline]
    pub fn input(&self) -> (input: &Option<I>)
        ensures
            *input == self@.input,
    {
        &self.input
    }

    /// The input, to change it in place.
    #[inline]
    pub fn input_mut(&mut self) -> (input: &mut Option<I>)
        ensures
            *input == old(self)@.input,
            final(self)@ == (TestcaseView { input: *final(input), ..old(self)@ }),
            final(self)@.is_backed() == (*final(input) is Some || old(self)@.filename is Some),
    {
        &mut self.input
    }

    /// Puts `input` in memory.
    #[inline]
    pub fn set_input(&mut self, input: I)
        ensures
            final(self)@ == (TestcaseView { input: Some(input), ..old(self)@ }),
            final(self)@.is_backed(),
    {
        self.input = Some(input);
    }

    /// The name of the backing file, if there is one.
    #[inline]
    pub fn filename(&self) -> (filename: &Option<String>)
        ensures
            path_of(*filename) == self@.filename,
    {
        &self.filename
    }

    /// The name of the backing file, to change it in place.
    #[inline]
    pub fn filename_mut(&mut self) -> (filename: &mut Option<String>)
        ensures
            path_of(*filename) == old(self)@.filename,
            final(self)@ == (TestcaseView { filename: path_of(*final(filename)), ..old(self)@ }),
            final(self)@.is_backed() == (old(self)@.input is Some || *final(filename) is Some),
    {
        &mut self.filename
    }

    /// Names the file that backs the input.
    #[inline]
    pub fn set_filename(&mut self, filename: String)
        ensures
            final(self)@ == (TestcaseView { filename: Some(filename@), ..old(self)@ }),
            final(self)@.is_backed(),
    {
        self.filename = Some(filename);
    }

    /// The score.
    #[inline]
    pub fn fitness(&self) -> (fitness: u32)
        ensures
            fitness == self@.fitness,
    {
        self.fitness
    }

    /// The score, to change it in place.
    #[inline]
    pub fn fitness_mut(&mut self) -> (fitness: &mut u32)
        ensures
            *fitness == old(self)@.fitness,
            final(self)@ == old(self)@.with_fitness(*final(fitness)),
            final(self)@.is_backed() == old(self)@.is_backed(),
    {
        &mut self.fitness
    }

    /// Sets the score.
    #[inline]
    pub fn set_fitness(&mut self, fitness: u32)
        ensures
            final(self)@ == old(self)@.with_fitness(fitness),
            final(self)@.is_backed() == old(self)@.is_backed(),
    {
        self.fitness = fitness;
    }

    /// How long the input took to run, if that was measured.
    #[inline]
    pub fn exec_time(&self) -> (exec_time: &Option<Duration>)
        ensures
            *exec_time == self@.exec_time,
    {
        &self.exec_time
    }

    /// Notes how long the input took to run.
    #[inline]
    pub fn set_exec_time(&mut self, time: Duration)
        ensures
            final(self)@ == (TestcaseView { exec_time: Some(time), ..old(self)@ }),
            final(self)@.is_backed() == old(self)@.is_backed(),
    {
        self.exec_time = Some(time);
    }

    /// The registry of metadata, to read it or change it in place.
    #[inline]
    pub fn metadatas(&mut self) -> (metadatas: &mut SerdeAnyMap)
        ensures
            metadatas@ == old(self)@.metadatas,
            final(self)@ == (TestcaseView { metadatas: final(metadatas)@, ..old(self)@ }),
            final(self)@.is_backed() == old(self)@.is_backed(),
    {
        &mut self.metadatas
    }

    /// Files `meta` under the key of its kind, in place of what was there.
    #[inline]
    pub fn add_metadata<M>(&mut self, meta: M) where M: SerdeAny
        ensures
            final(self)@ == (TestcaseView {
                metadatas: old(self)@.metadatas.insert(M::spec_key(), meta.spec_to_bytes()),
                ..old(self)@
            }),
            final(self)@.is_backed() == old(self)@.is_backed(),
    {
        self.metadatas.insert(meta);
    }

    /// A test case that holds `input` in memory.
    #[inline]
    pub fn new<T>(input: T) -> (testcase: Self) where T: Into<I>
        ensures
            testcase@.input is Some,
            testcase@ == TestcaseView::fresh(testcase@.input->Some_0),
            <T as IntoSpec<I>>::obeys_into_spec() ==> testcase@.input == Some(
                <T as IntoSpec<I>>::into_spec(input),
            ),
            call_ensures(<T as Into<I>>::into, (input,), testcase@.input->Some_0),
            testcase@.is_backed(),
    {
        Testcase {
            input: Some(input.into()),
            filename: None,
            fitness: 0,
            metadatas: SerdeAnyMap::new(),
            exec_time: None,
        }
    }

    /// A test case that holds `input` in memory and is backed by the file
    /// `filename`.
    #[inline]
    pub fn with_filename(input: I, filename: String) -> (testcase: Self)
        ensures
            testcase@ == (TestcaseView { filename: Some(filename@), ..TestcaseView::fresh(input) }),
            testcase@.is_backed(),
    {
        Testcase {
            input: Some(input),
            filename: Some(filename),
            fitness: 0,
            metadatas: SerdeAnyMap::new(),
            exec_time: None,
        }
    }

    /// A test case that holds nothing yet: no input and no file name.
    #[inline]
    pub fn default() -> (testcase: Self)
        ensures
            testcase@ == TestcaseView::<I>::empty(),
            !testcase@.is_backed(),
    {
        Testcase {
            input: None,
            filename: None,
            fitness: 0,
            metadatas: SerdeAnyMap::new(),
            exec_time: None,
        }
    }
}

/// A test case can be made from its input alone.
impl<I: Input> From<I> for Testcase<I> {
    fn from(input: I) -> (testcase: Self)
        ensures
            testcase@ == TestcaseView::fresh(input),
            testcase@.is_backed(),
    {
        Testcase {
            input: Some(input),
            filename: None,
            fitness: 0,
            metadatas: SerdeAnyMap::new(),
            exec_time: None,
        }
    }
}

impl<I: Input> FromSpecImpl<I> for Testcase<I> {
    /// Two test cases made from one input hold the same values without being
    /// known to be one value, so `from` is specified by its own contract.
    open spec fn obeys_from_spec() -> bool {
        false
    }

    open spec fn from_spec(input: I) -> Self {
        choose|testcase: Testcase<I>| testcase@ == TestcaseView::fresh(input)
    }
}

} // verus!
