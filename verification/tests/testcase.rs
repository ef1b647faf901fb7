use afl::corpus::testcase::Testcase;
use afl::error::Error;
use afl::inputs::Input;
use afl::serdeany::{SerdeAny, SerdeAnyMap};

/// An input whose file name spells its bytes, two hex digits each: a write
/// succeeds where the name spells the input, and a read gives what the name
/// spells.
#[derive(Debug, Clone, PartialEq, Eq)]
struct HexInput(Vec<u8>);

fn hex(bytes: &[u8]) -> String {
    let mut out = String::new();
    for byte in bytes {
        out.push_str(&format!("{:02x}", byte));
    }
    out
}

fn unhex(text: &str) -> Option<Vec<u8>> {
    if text.len() % 2 != 0 {
        return None;
    }
    let mut out = Vec::new();
    let mut at = 0;
    while at < text.len() {
        match u8::from_str_radix(&text[at..at + 2], 16) {
            Ok(byte) => out.push(byte),
            Err(_) => return None,
        }
        at += 2;
    }
    Some(out)
}

impl Input for HexInput {
    fn to_file(&self, path: &str) -> Result<(), Error> {
        if hex(&self.0) == path {
            Ok(())
        } else {
            Err(Error::File(format!("cannot write to {}", path)))
        }
    }

    fn from_file(path: &str) -> Result<Self, Error> {
        match unhex(path) {
            Some(bytes) => Ok(HexInput(bytes)),
            None => Err(Error::Serialize(format!("cannot read {}", path))),
        }
    }
}

impl From<Vec<u8>> for HexInput {
    fn from(bytes: Vec<u8>) -> Self {
        HexInput(bytes)
    }
}

#[derive(Debug, Clone, PartialEq, Eq)]
struct Edges(Vec<u8>);

impl SerdeAny for Edges {
    fn key() -> u64 {
        0xed6e5
    }

    fn to_bytes(&self) -> Vec<u8> {
        self.0.clone()
    }

    fn from_bytes(bytes: &[u8]) -> Option<Self> {
        Some(Edges(bytes.to_vec()))
    }
}

#[derive(Debug, Clone, PartialEq, Eq)]
struct Hits(u8);

impl SerdeAny for Hits {
    fn key() -> u64 {
        0x4175
    }

    fn to_bytes(&self) -> Vec<u8> {
        vec![self.0]
    }

    fn from_bytes(bytes: &[u8]) -> Option<Self> {
        if bytes.len() == 1 {
            Some(Hits(bytes[0]))
        } else {
            None
        }
    }
}

#[test]
fn new_testcase_holds_its_input_only() {
    let testcase: Testcase<HexInput> = Testcase::new(vec![0u8; 4]);
    assert_eq!(testcase.input(), &Some(HexInput(vec![0u8; 4])));
    assert_eq!(testcase.filename(), &None);
    assert_eq!(testcase.fitness(), 0);
}

#[test]
fn new_testcase_of_an_input_holds_that_input() {
    let testcase: Testcase<HexInput> = Testcase::new(HexInput(vec![3, 4]));
    assert_eq!(testcase.input(), &Some(HexInput(vec![3, 4])));
    assert_eq!(testcase.filename(), &None);
    assert_eq!(testcase.fitness(), 0);
}

#[test]
fn testcase_from_input_is_as_new() {
    let testcase: Testcase<HexInput> = HexInput(vec![1, 2]).into();
    assert_eq!(testcase.input(), &Some(HexInput(vec![1, 2])));
    assert_eq!(testcase.filename(), &None);
    assert_eq!(testcase.fitness(), 0);
}

#[test]
fn with_filename_holds_input_and_name() {
    let testcase = Testcase::with_filename(HexInput(vec![7]), "07".to_owned());
    assert_eq!(testcase.input(), &Some(HexInput(vec![7])));
    assert_eq!(testcase.filename(), &Some("07".to_owned()));
    assert_eq!(testcase.fitness(), 0);
}

#[test]
fn default_testcase_holds_nothing() {
    let testcase: Testcase<HexInput> = Testcase::default();
    assert_eq!(testcase.input(), &None);
    assert_eq!(testcase.filename(), &None);
    assert_eq!(testcase.fitness(), 0);
}

#[test]
fn made_testcases_are_backed() {
    let made: Vec<Testcase<HexInput>> = vec![
        Testcase::new(vec![1u8]),
        Testcase::with_filename(HexInput(vec![1]), "01".to_owned()),
        Testcase::from(HexInput(vec![1])),
    ];
    for testcase in &made {
        assert!(testcase.input().is_some() || testcase.filename().is_some());
    }
}

#[test]
fn setters_change_one_field_each() {
    let mut testcase: Testcase<HexInput> = Testcase::new(vec![1u8]);
    testcase.set_fitness(9);
    assert_eq!(testcase.fitness(), 9);
    assert_eq!(testcase.input(), &Some(HexInput(vec![1])));
    testcase.set_filename("01".to_owned());
    assert_eq!(testcase.filename(), &Some("01".to_owned()));
    assert_eq!(testcase.fitness(), 9);
    testcase.set_input(HexInput(vec![2, 3]));
    assert_eq!(testcase.input(), &Some(HexInput(vec![2, 3])));
    assert_eq!(testcase.filename(), &Some("01".to_owned()));
}

#[test]
fn mutable_accessors_reach_the_fields() {
    let mut testcase: Testcase<HexInput> = Testcase::new(vec![1u8]);
    *testcase.fitness_mut() += 3;
    assert_eq!(testcase.fitness(), 3);
    *testcase.filename_mut() = Some("ab".to_owned());
    assert_eq!(testcase.filename(), &Some("ab".to_owned()));
    *testcase.input_mut() = None;
    assert_eq!(testcase.input(), &None);
    assert_eq!(testcase.fitness(), 3);
}

#[test]
fn store_without_filename_stores_nothing() {
    let mut testcase: Testcase<HexInput> = Testcase::new(vec![5u8]);
    assert_eq!(testcase.store_input(), Ok(false));
    assert_eq!(testcase.input(), &Some(HexInput(vec![5])));
}

#[test]
fn store_without_input_stores_nothing() {
    let mut testcase: Testcase<HexInput> = Testcase::default();
    testcase.set_filename("05".to_owned());
    assert_eq!(testcase.store_input(), Ok(false));
}

#[test]
fn store_writes_the_input_to_the_named_file() {
    let mut testcase = Testcase::with_filename(HexInput(vec![0xde, 0xad]), "dead".to_owned());
    assert_eq!(testcase.store_input(), Ok(true));
    assert_eq!(testcase.input(), &Some(HexInput(vec![0xde, 0xad])));
    assert_eq!(testcase.filename(), &Some("dead".to_owned()));
}

#[test]
fn store_fails_as_the_write_does() {
    let mut testcase = Testcase::with_filename(HexInput(vec![1]), "ff".to_owned());
    assert_eq!(testcase.store_input(), Err(Error::File("cannot write to ff".to_owned())));
}

#[test]
fn load_hands_back_the_input_in_memory() {
    let mut testcase = Testcase::with_filename(HexInput(vec![1]), "ff".to_owned());
    assert_eq!(testcase.load_input(), Ok(&HexInput(vec![1])));
    assert_eq!(testcase.load_input(), Ok(&HexInput(vec![1])));
}

#[test]
fn load_reads_the_backing_file() {
    let mut testcase: Testcase<HexInput> = Testcase::default();
    testcase.set_filename("0a0b".to_owned());
    assert_eq!(testcase.load_input(), Ok(&HexInput(vec![10, 11])));
    assert_eq!(testcase.input(), &Some(HexInput(vec![10, 11])));
    assert_eq!(testcase.load_input(), Ok(&HexInput(vec![10, 11])));
}

#[test]
fn load_fails_as_the_read_does() {
    let mut testcase: Testcase<HexInput> = Testcase::default();
    testcase.set_filename("xyz".to_owned());
    assert_eq!(testcase.load_input(), Err(Error::Serialize("cannot read xyz".to_owned())));
    assert_eq!(testcase.input(), &None);
}

#[test]
fn load_without_input_or_file_fails() {
    let mut testcase: Testcase<HexInput> = Testcase::default();
    assert_eq!(
        testcase.load_input(),
        Err(Error::File("No input and no file to load it from".to_owned()))
    );
}

#[test]
fn stored_input_comes_back_after_clearing() {
    let input = HexInput(vec![0, 1, 2, 0xfe]);
    let mut testcase = Testcase::with_filename(input.clone(), hex(&input.0));
    assert_eq!(testcase.store_input(), Ok(true));
    *testcase.input_mut() = None;
    assert_eq!(testcase.input(), &None);
    assert_eq!(testcase.load_input(), Ok(&input));
    assert_eq!(testcase.input(), &Some(input));
}

#[test]
fn metadata_of_two_kinds_coexists() {
    let mut testcase: Testcase<HexInput> = Testcase::new(vec![1u8]);
    testcase.add_metadata(Edges(vec![1, 2, 3]));
    testcase.add_metadata(Hits(4));
    assert_eq!(testcase.metadatas().len(), 2);
    assert_eq!(testcase.metadatas().get::<Edges>(), Some(Edges(vec![1, 2, 3])));
    assert_eq!(testcase.metadatas().get::<Hits>(), Some(Hits(4)));
    assert_eq!(testcase.fitness(), 0);
    assert_eq!(testcase.input(), &Some(HexInput(vec![1])));
}

#[test]
fn metadata_of_one_kind_is_replaced() {
    let mut testcase: Testcase<HexInput> = Testcase::new(vec![1u8]);
    testcase.add_metadata(Hits(4));
    testcase.add_metadata(Hits(5));
    assert_eq!(testcase.metadatas().len(), 1);
    assert_eq!(testcase.metadatas().get::<Hits>(), Some(Hits(5)));
}

#[test]
fn registry_starts_empty() {
    let registry = SerdeAnyMap::new();
    assert_eq!(registry.len(), 0);
    assert!(!registry.contains::<Hits>());
    assert_eq!(registry.get::<Hits>(), None);
}

#[test]
fn registry_files_by_kind() {
    let mut registry = SerdeAnyMap::new();
    registry.insert(Hits(1));
    assert!(registry.contains::<Hits>());
    assert!(!registry.contains::<Edges>());
    assert_eq!(registry.len(), 1);
    registry.insert(Edges(vec![9]));
    assert_eq!(registry.len(), 2);
    assert_eq!(registry.get::<Edges>(), Some(Edges(vec![9])));
    registry.insert(Edges(vec![8, 7]));
    assert_eq!(registry.len(), 2);
    assert_eq!(registry.get::<Edges>(), Some(Edges(vec![8, 7])));
    assert_eq!(registry.get::<Hits>(), Some(Hits(1)));
}

#[test]
fn registry_reads_back_through_the_kind() {
    let mut testcase: Testcase<HexInput> = Testcase::new(vec![1u8]);
    testcase.metadatas().insert(Edges(vec![1, 2]));
    assert_eq!(testcase.metadatas().get::<Edges>(), Some(Edges(vec![1, 2])));
    assert_eq!(testcase.metadatas().get::<Hits>(), None);
}

#[test]
fn registry_files_bytes_under_a_key() {
    let mut registry = SerdeAnyMap::new();
    registry.insert_bytes(7, vec![1, 2]);
    registry.insert_bytes(9, vec![3]);
    registry.insert_bytes(7, vec![4, 5, 6]);
    assert_eq!(registry.len(), 2);
    assert_eq!(registry.get_bytes(7), Some(&vec![4, 5, 6]));
    assert_eq!(registry.get_bytes(9), Some(&vec![3]));
    assert_eq!(registry.get_bytes(8), None);
    assert_eq!(registry.entries(), &vec![(7, vec![4, 5, 6]), (9, vec![3])]);
}

#[test]
fn registry_keeps_a_kind_under_its_key() {
    let mut registry = SerdeAnyMap::new();
    registry.insert(Hits(3));
    assert_eq!(registry.get_bytes(Hits::key()), Some(&vec![3]));
    assert_eq!(registry.entries(), &vec![(Hits::key(), vec![3])]);
}

#[test]
fn registry_gives_nothing_for_bytes_that_stand_for_no_value() {
    let mut registry = SerdeAnyMap::new();
    registry.insert_bytes(Hits::key(), vec![1, 2]);
    assert!(registry.contains::<Hits>());
    assert_eq!(registry.get::<Hits>(), None);
}

#[test]
fn exec_time_is_unset_until_noted() {
    let mut testcase: Testcase<HexInput> = Testcase::new(vec![1u8]);
    assert_eq!(testcase.exec_time(), &None);
    testcase.set_exec_time(std::time::Duration::from_millis(1500));
    assert_eq!(testcase.exec_time(), &Some(std::time::Duration::from_millis(1500)));
    assert_eq!(testcase.input(), &Some(HexInput(vec![1])));
    assert_eq!(testcase.fitness(), 0);
}
