use std::convert::TryFrom;

use bitfields::{BitFieldSet, Error, StorageType};

const PATH_TYPE_POS: StorageType = 7;
const PROTOCOL_POS: StorageType = 2;
const ADDRESS_TYPE_POS: StorageType = 0;
const RAW_STORAGE: StorageType = 0b10001001;

#[derive(Debug, PartialEq)]
enum PathTypes {
    Named,
    Unique,
}

#[derive(Debug, PartialEq)]
enum AddressTypes {
    IPv4,
    IPv6,
    Domain,
}

#[derive(Debug, PartialEq)]
enum ProtocolTypes {
    Local,
    TCP,
    UDP,
    UDT,
}

impl TryFrom<StorageType> for PathTypes {
    type Error = Error;

    fn try_from(value: StorageType) -> Result<Self, Self::Error> {
        match value {
            x if x == PathTypes::Named as StorageType => Ok(PathTypes::Named),
            x if x == PathTypes::Unique as StorageType => Ok(PathTypes::Unique),
            _other => Err(Error::TryFromError),
        }
    }
}

impl TryFrom<StorageType> for AddressTypes {
    type Error = Error;

    fn try_from(value: StorageType) -> Result<Self, Self::Error> {
        match value {
            x if x == AddressTypes::IPv4 as StorageType => Ok(AddressTypes::IPv4),
            x if x == AddressTypes::IPv6 as StorageType => Ok(AddressTypes::IPv6),
            x if x == AddressTypes::Domain as StorageType => Ok(AddressTypes::Domain),
            _other => Err(Error::TryFromError),
        }
    }
}

impl TryFrom<StorageType> for ProtocolTypes {
    type Error = Error;

    fn try_from(value: StorageType) -> Result<Self, Self::Error> {
        match value {
            x if x == ProtocolTypes::Local as StorageType => Ok(ProtocolTypes::Local),
            x if x == ProtocolTypes::TCP as StorageType => Ok(ProtocolTypes::TCP),
            x if x == ProtocolTypes::UDP as StorageType => Ok(ProtocolTypes::UDP),
            x if x == ProtocolTypes::UDT as StorageType => Ok(ProtocolTypes::UDT),
            _other => Err(Error::TryFromError),
        }
    }
}

#[test]
fn insertion() {
    let mut bfs = BitFieldSet::new(8).expect("8 bits should fit into default storage type u32");
    bfs.insert(PATH_TYPE_POS, 1, PathTypes::Unique as u8)
        .expect("Data width of 1 should fit inside expected 32 bits");
    bfs.insert(PROTOCOL_POS, 5, ProtocolTypes::UDP as u8)
        .expect("Data width of 5 should fit inside expected 32 bits");
    bfs.insert(ADDRESS_TYPE_POS, 2, AddressTypes::IPv6 as u8)
        .expect("Data width of 2 should fit inside expected 32 bits");

    assert_eq!(
        bfs.get(PATH_TYPE_POS).unwrap(),
        PathTypes::Unique as StorageType
    );
    assert_eq!(
        bfs.get_as::<PathTypes>(PATH_TYPE_POS).unwrap(),
        PathTypes::Unique
    );
    assert_eq!(
        bfs.get_as::<AddressTypes>(ADDRESS_TYPE_POS).unwrap(),
        AddressTypes::IPv6
    );
    assert_eq!(
        bfs.get_as::<ProtocolTypes>(PROTOCOL_POS).unwrap(),
        ProtocolTypes::UDP
    );
}

#[test]
fn from_raw() {
    let mut bfs = BitFieldSet::from(RAW_STORAGE);
    bfs.add(PATH_TYPE_POS, 1)
        .expect("Data of width 1 should fit inside expected 32 bits");
    bfs.add(PROTOCOL_POS, 5)
        .expect("Data of width 1 should fit inside expected 32 bits");
    bfs.add(ADDRESS_TYPE_POS, 2)
        .expect("Data of width 1 should fit inside expected 32 bits");

    assert_eq!(
        bfs.get(PATH_TYPE_POS).unwrap(),
        PathTypes::Unique as StorageType
    );
    assert_eq!(
        bfs.get_as::<PathTypes>(PATH_TYPE_POS).unwrap(),
        PathTypes::Unique
    );
    assert_eq!(
        bfs.get_as::<AddressTypes>(ADDRESS_TYPE_POS).unwrap(),
        AddressTypes::IPv6
    );
    assert_eq!(
        bfs.get_as::<ProtocolTypes>(PROTOCOL_POS).unwrap(),
        ProtocolTypes::UDP
    );
}

#[test]
fn into_raw() {
    let mut bfs = BitFieldSet::new(8).unwrap();
    bfs.insert(PATH_TYPE_POS, 1, PathTypes::Unique as u8)
        .unwrap();
    bfs.insert(PROTOCOL_POS, 5, ProtocolTypes::UDP as u8)
        .unwrap();
    bfs.insert(ADDRESS_TYPE_POS, 2, AddressTypes::IPv6 as u8)
        .unwrap();
    let raw = bfs.get_raw();
    assert_eq!(
        raw, RAW_STORAGE,
        "Inserted data should match hardocded expected bits"
    );
}

#[test]
fn truncated_raw() {
    let mut bfs = BitFieldSet::new(8).unwrap();
    bfs.insert(PATH_TYPE_POS, 1, PathTypes::Unique as u8)
        .unwrap();
    bfs.insert(PROTOCOL_POS, 5, ProtocolTypes::UDP as u8)
        .unwrap();
    bfs.insert(ADDRESS_TYPE_POS, 2, AddressTypes::IPv6 as u8)
        .unwrap();
    let raw = bfs.get_raw() as u8;
    assert_eq!(
        raw as u32, RAW_STORAGE,
        "Inserted data should match hardocded expected bits"
    );
}

#[test]
fn bad_insertion() {
    let mut bfs = BitFieldSet::new(8).unwrap();
    // Valid insertion
    bfs.add(PATH_TYPE_POS, 1).unwrap();
    // Invalid re-insertion at existing position
    let res = bfs.add(PATH_TYPE_POS, 1);

    assert_eq!(res, Err(Error::WouldOverlap));
}

#[test]
fn out_of_bounds_insertion() {
    let mut bfs = BitFieldSet::new(8).unwrap();
    let res = bfs.add(8, 9);
    assert_eq!(res, Err(Error::OutOfBounds));
}

#[test]
fn three_fields_read_back_one_two_one() {
    let mut bfs = BitFieldSet::new(8).unwrap();
    assert_eq!(bfs.insert(ADDRESS_TYPE_POS, 2, AddressTypes::IPv6 as u8), Ok(1));
    assert_eq!(bfs.insert(PROTOCOL_POS, 5, ProtocolTypes::UDP as u8), Ok(2));
    assert_eq!(bfs.insert(PATH_TYPE_POS, 1, PathTypes::Unique as u8), Ok(1));
    assert_eq!(bfs.get_raw(), 0x89);
    assert_eq!(bfs.get(ADDRESS_TYPE_POS), Some(1));
    assert_eq!(bfs.get(PROTOCOL_POS), Some(2));
    assert_eq!(bfs.get(PATH_TYPE_POS), Some(1));
}

#[test]
fn exported_word_reads_alike_once_registered_again() {
    let mut packed = BitFieldSet::new(8).unwrap();
    packed.insert(ADDRESS_TYPE_POS, 2, AddressTypes::IPv6 as u8).unwrap();
    packed.insert(PROTOCOL_POS, 5, ProtocolTypes::UDP as u8).unwrap();
    packed.insert(PATH_TYPE_POS, 1, PathTypes::Unique as u8).unwrap();

    let mut again = BitFieldSet::from(packed.get_raw());
    assert_eq!(again.get(ADDRESS_TYPE_POS), None);
    assert_eq!(again.add(ADDRESS_TYPE_POS, 2), Ok(()));
    assert_eq!(again.add(PROTOCOL_POS, 5), Ok(()));
    assert_eq!(again.add(PATH_TYPE_POS, 1), Ok(()));

    for pos in [ADDRESS_TYPE_POS, PROTOCOL_POS, PATH_TYPE_POS] {
        assert_eq!(again.get(pos), packed.get(pos));
    }
    assert_eq!(again.get_raw(), packed.get_raw());
    assert_eq!(again.get_as::<AddressTypes>(ADDRESS_TYPE_POS), Ok(AddressTypes::IPv6));
    assert_eq!(again.get_as::<ProtocolTypes>(PROTOCOL_POS), Ok(ProtocolTypes::UDP));
    assert_eq!(again.get_as::<PathTypes>(PATH_TYPE_POS), Ok(PathTypes::Unique));
}

#[test]
fn every_variant_comes_back_typed() {
    let mut bfs = BitFieldSet::new(16).unwrap();
    bfs.insert(0, 2, AddressTypes::IPv4 as u8).unwrap();
    bfs.insert(2, 2, AddressTypes::Domain as u8).unwrap();
    bfs.insert(4, 2, ProtocolTypes::UDT as u8).unwrap();
    bfs.insert(6, 1, PathTypes::Named as u8).unwrap();
    bfs.insert(7, 2, ProtocolTypes::TCP as u8).unwrap();
    bfs.insert(9, 2, ProtocolTypes::Local as u8).unwrap();
    assert_eq!(bfs.get_as::<AddressTypes>(0), Ok(AddressTypes::IPv4));
    assert_eq!(bfs.get_as::<AddressTypes>(2), Ok(AddressTypes::Domain));
    assert_eq!(bfs.get_as::<ProtocolTypes>(4), Ok(ProtocolTypes::UDT));
    assert_eq!(bfs.get_as::<PathTypes>(6), Ok(PathTypes::Named));
    assert_eq!(bfs.get_as::<ProtocolTypes>(7), Ok(ProtocolTypes::TCP));
    assert_eq!(bfs.get_as::<ProtocolTypes>(9), Ok(ProtocolTypes::Local));
}

#[test]
fn value_without_a_variant_is_a_conversion_error() {
    let mut bfs = BitFieldSet::new(8).unwrap();
    assert_eq!(bfs.insert(ADDRESS_TYPE_POS, 2, 3u8), Ok(3));
    assert_eq!(bfs.get(ADDRESS_TYPE_POS), Some(3));
    assert_eq!(
        bfs.get_as::<AddressTypes>(ADDRESS_TYPE_POS),
        Err(Error::TryFromError)
    );
    assert_eq!(bfs.insert(PROTOCOL_POS, 5, 4u8), Ok(4));
    assert_eq!(
        bfs.get_as::<ProtocolTypes>(PROTOCOL_POS),
        Err(Error::TryFromError)
    );
}

#[test]
fn typed_read_where_nothing_is_registered_is_a_conversion_error() {
    let bfs = BitFieldSet::from(RAW_STORAGE);
    assert_eq!(
        bfs.get_as::<PathTypes>(PATH_TYPE_POS),
        Err(Error::TryFromError)
    );
    assert_eq!(bfs.get_as::<u32>(0), Err(Error::TryFromError));
}
