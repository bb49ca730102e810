use iolinke::parameter_storage::{AccessRight, ParameterError, ParameterStorage};

#[test]
fn default_page1_values() {
    let storage = ParameterStorage::new();
    let (len, data) = storage.get_parameter(0x0000, 0x02).unwrap();
    assert_eq!(len, 1);
    assert_eq!(data, &[0x81]);
    assert_eq!(storage.get_parameter(0x0000, 0x03).unwrap().1, &[0x1F]);
    assert_eq!(storage.get_parameter(0x0000, 0x04).unwrap().1, &[0x94]);
    assert_eq!(storage.get_parameter(0x0000, 0x05).unwrap().1, &[0x82]);
    assert_eq!(storage.get_parameter(0x0000, 0x06).unwrap().1, &[0x83]);
    assert_eq!(storage.get_parameter(0x0000, 0x07).unwrap().1, &[0x01]);
    assert_eq!(storage.get_parameter(0x0000, 0x08).unwrap().1, &[0x02]);
    assert_eq!(storage.get_parameter(0x0000, 0x09).unwrap().1, &[0x01]);
    assert_eq!(storage.get_parameter(0x0000, 0x0A).unwrap().1, &[0x02]);
    assert_eq!(storage.get_parameter(0x0000, 0x0B).unwrap().1, &[0x03]);
    assert_eq!(storage.get_parameter(0x0000, 0x0C).unwrap().1, &[0x01]);
    assert_eq!(storage.get_parameter(0x0000, 0x0D).unwrap().1, &[0x01]);
}

#[test]
fn vendor_and_product_names() {
    let storage = ParameterStorage::new();
    let (len, data) = storage.get_parameter(0x0010, 0x00).unwrap();
    assert_eq!(len, 7);
    assert_eq!(data, b"IOLinke");
    let (len, data) = storage.get_parameter(0x0012, 0x00).unwrap();
    assert_eq!(len, 13);
    assert_eq!(data, b"IOLinke Stack");
}

#[test]
fn write_then_read_device_id() {
    let mut storage = ParameterStorage::new();
    assert_eq!(storage.set_parameter(0x0000, 0x09, &[0x42]), Ok(()));
    assert_eq!(storage.get_parameter(0x0000, 0x09).unwrap(), (1, &[0x42u8][..]));
    // the neighbours are unchanged
    assert_eq!(storage.get_parameter(0x0000, 0x0A).unwrap().1, &[0x02]);
}

#[test]
fn write_then_read_index_list() {
    let mut storage = ParameterStorage::new();
    let data: Vec<u8> = (0u8..30).collect();
    assert_eq!(storage.set_parameter(0x0003, 0x05, &data), Ok(()));
    let (len, read) = storage.get_parameter(0x0003, 0x05).unwrap();
    assert_eq!(len, 30);
    assert_eq!(read, data.as_slice());
}

#[test]
fn access_and_length_errors() {
    let mut storage = ParameterStorage::new();
    assert_eq!(storage.set_parameter(0x0000, 0x02, &[1]), Err(ParameterError::AccessDenied));
    assert_eq!(storage.get_parameter(0x0000, 0x00).err(), Some(ParameterError::AccessDenied));
    assert_eq!(storage.set_parameter(0x0000, 0x09, &[1, 2]), Err(ParameterError::LengthOverrun));
    assert_eq!(storage.set_parameter(0x0003, 0x05, &[1, 2]), Err(ParameterError::LengthUnderrun));
    assert_eq!(storage.set_parameter(0x0000, 0x0E, &[1]), Err(ParameterError::SubindexNotAvailable));
    assert_eq!(storage.set_parameter(0x0003, 0x00, &[1]), Err(ParameterError::SubindexNotAvailable));
    assert_eq!(storage.set_parameter(0x0004, 0x00, &[1]), Err(ParameterError::IndexNotAvailable));
    assert_eq!(storage.get_parameter(0x0004, 0x00).err(), Some(ParameterError::IndexNotAvailable));
    // a refused write changes nothing
    assert_eq!(storage.get_parameter(0x0000, 0x09).unwrap().1, &[0x01]);
}

#[test]
fn clear_restores_defaults() {
    let mut storage = ParameterStorage::new();
    storage.set_parameter(0x0000, 0x01, &[0x55]).unwrap();
    storage.clear();
    assert_eq!(storage.get_parameter(0x0000, 0x01).unwrap().1, &[0x00]);
}

#[test]
fn parameter_info_of_entries() {
    let storage = ParameterStorage::new();
    let info = storage.get_parameter_info(0x0003, 0x05).unwrap();
    assert_eq!(info.index, 0x0003);
    assert_eq!(info.subindex, 0x05);
    assert_eq!(info.length, 30);
    assert_eq!(info.range, Some(0..29));
    assert_eq!(info.access, AccessRight::ReadWrite);
    assert_eq!(info.data_type, "u8");
    assert!(storage.get_parameter_info(0x0000, 0x0E).is_err());
    assert_eq!(storage.get_all_parameters().len(), 23);
    assert_eq!(storage.validate_constraints(), Ok(()));
}

#[test]
fn read_index_memory_outcomes() {
    let storage = ParameterStorage::new();
    let m = storage.read_index_memory(0x0010).unwrap();
    assert_eq!(m.as_slice(), b"IOLinke");
    assert_eq!(storage.read_index_memory(0x0000).err(), Some(ParameterError::AccessDenied));
    assert_eq!(storage.read_index_memory(0x0003).unwrap().len(), 34);
    assert_eq!(storage.read_index_memory(0x0020).err(), Some(ParameterError::IndexNotAvailable));
}

#[test]
fn write_index_memory_outcomes() {
    let mut storage = ParameterStorage::new();
    let data: Vec<u8> = (1u8..=34).collect();
    assert_eq!(storage.write_index_memory(0x0003, &data), Ok(()));
    assert_eq!(storage.get_parameter(0x0003, 0x01).unwrap().1, &[1]);
    assert_eq!(storage.get_parameter(0x0003, 0x04).unwrap().1, &[4]);
    assert_eq!(storage.get_parameter(0x0003, 0x05).unwrap().1, &data[4..]);
    assert_eq!(storage.write_index_memory(0x0003, &data[..3]), Err(ParameterError::LengthUnderrun));
    let long: Vec<u8> = (0u8..35).collect();
    assert_eq!(storage.write_index_memory(0x0003, &long), Err(ParameterError::LengthOverrun));
    assert_eq!(storage.read_index_memory(0x0003).unwrap().as_slice(), data.as_slice());
    assert_eq!(storage.write_index_memory(0x0000, &[0; 15]), Err(ParameterError::AccessDenied));
    assert_eq!(storage.write_index_memory(0x0011, &[0]), Err(ParameterError::IndexNotAvailable));
}
