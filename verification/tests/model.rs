use hdf5::{Dataspace, Datatype, Error, File, Filters, Group, Handle, IntSize, TypeDescriptor};

#[test]
fn handle_validity() {
    assert_eq!(Handle::try_new(5).unwrap().id(), 5);
    assert!(Handle::try_new(5).unwrap().is_valid_handle());
    assert_eq!(Handle::try_new(0).unwrap_err(), Error::InvalidHandleId(0));
    assert_eq!(Handle::try_new(-3).unwrap_err(), Error::InvalidHandleId(-3));
    let invalid = Handle::invalid();
    assert_eq!(invalid.id(), -1);
    assert!(!invalid.is_valid_handle());
}

#[test]
fn invalid_parent_is_reported_at_create() {
    let mut file = File::in_memory();
    let orphan = Group { handle: Handle::invalid(), path: String::new() };
    let r = orphan.new_attribute::<i32>().create(&mut file, "x", ());
    assert_eq!(r.unwrap_err(), Error::InvalidHandleId(-1));
    let r = orphan.new_dataset::<u32>().create_anon(&mut file, 1);
    assert_eq!(r.unwrap_err(), Error::InvalidHandleId(-1));
}

#[test]
fn nul_in_name_is_rejected() {
    let mut file = File::in_memory();
    let r = file.new_attribute::<u8>().create(&mut file, "foo\0bar", ());
    assert_eq!(r.unwrap_err(), Error::NulName);
    let r = file.new_dataset::<u8>().create(&mut file, "foo\0bar", 1);
    assert_eq!(r.unwrap_err(), Error::NulName);
}

#[test]
fn oversized_extents_are_rejected() {
    let mut file = File::in_memory();
    let r = file.new_dataset::<u8>().create_anon(&mut file, vec![usize::MAX, 2]);
    assert_eq!(r.unwrap_err(), Error::ExtentsTooLarge);

    // A zero extent makes the element count zero, however large the rest.
    let ds = file.new_dataset::<u8>().create_anon(&mut file, vec![usize::MAX, 0]).unwrap();
    assert_eq!(ds.size(), 0);
    assert_eq!(ds.shape(), vec![usize::MAX, 0]);
}

#[test]
fn gzip_level_is_validated() {
    let mut file = File::in_memory();
    let r = file.new_dataset::<u32>().gzip(10).create_anon(&mut file, 1);
    assert_eq!(r.unwrap_err(), Error::InvalidGzipLevel(10));

    let ds = file.new_dataset::<u32>().gzip(9).create_anon(&mut file, 1).unwrap();
    assert_eq!(ds.filters().get_gzip(), Some(9));

    assert!(Filters::new().gzip(3).validate().is_ok());
    assert_eq!(Filters::new().gzip(12).validate().unwrap_err(), Error::InvalidGzipLevel(12));
}

#[test]
fn fill_value_conversion_is_exact() {
    let mut file = File::in_memory();
    let ds = file.new_dataset::<u16>().fill_value(300).create_anon(&mut file, 1).unwrap();
    assert_eq!(ds.fill_value::<u8>().unwrap_err(), Error::FillValueConversion);
    assert_eq!(ds.fill_value::<i16>().unwrap(), Some(300i16));
    assert_eq!(ds.fill_value::<u64>().unwrap(), Some(300u64));

    let ds = file.new_dataset::<i8>().fill_value(-5).create_anon(&mut file, 1).unwrap();
    assert_eq!(ds.fill_value::<u32>().unwrap_err(), Error::FillValueConversion);
    assert_eq!(ds.fill_value::<i64>().unwrap(), Some(-5i64));
}

#[test]
fn created_objects_get_fresh_valid_ids() {
    let mut file = File::in_memory();
    assert_eq!(file.root().handle().id(), 1);
    let a = file.new_dataset::<u8>().create_anon(&mut file, 1).unwrap();
    let b = file.new_dataset::<u8>().create_anon(&mut file, 1).unwrap();
    assert_eq!(a.handle().id(), 2);
    assert_eq!(b.handle().id(), 3);
    assert!(a.is_valid());
    assert!(b.is_valid());
}

#[test]
fn attribute_on_dataset_links_under_its_path() {
    let mut file = File::in_memory();
    let ds = file.new_dataset::<u32>().create(&mut file, "foo", 2).unwrap();
    assert_eq!(ds.name(), "/foo");
    let a = ds.new_attribute::<u16>().create(&mut file, "attr", 4).unwrap();
    assert_eq!(a.name(), "/foo/attr");
    assert_eq!(a.shape(), vec![4]);
    assert_eq!(a.size(), 4);
}

#[test]
fn builder_flags_are_recorded() {
    let file = File::in_memory();
    let mut b = file.new_attribute::<u8>();
    assert!(!b.packed);
    assert!(!b.track_times);
    b.packed(true).track_times(true);
    assert!(b.packed);
    assert!(b.track_times);
    b.packed(false);
    assert!(!b.packed);
    assert!(b.track_times);
}

#[test]
fn exhausted_id_space_is_reported() {
    let mut file = File { root: Group { handle: Handle::try_new(1).unwrap(), path: String::new() }, next_id: i64::MAX };
    let r = file.new_dataset::<u8>().create_anon(&mut file, 1);
    assert_eq!(r.unwrap_err(), Error::IdSpaceExhausted);
}

#[test]
fn dataspace_counts_elements() {
    let space = Dataspace::try_new((2, 3), true).unwrap();
    assert_eq!(space.ndim(), 2);
    assert_eq!(space.size(), 6);
    assert_eq!(space.shape(), vec![2, 3]);
    assert!(space.is_resizable());
    assert!(!space.is_scalar());

    let scalar = Dataspace::try_new((), false).unwrap();
    assert_eq!(scalar.ndim(), 0);
    assert_eq!(scalar.size(), 1);
    assert!(scalar.is_scalar());

    assert_eq!(Dataspace::try_new(vec![3, 4, 5], false).unwrap().size(), 60);
    assert_eq!(
        Dataspace::try_new(vec![usize::MAX, usize::MAX], false).unwrap_err(),
        Error::ExtentsTooLarge
    );
}

#[test]
fn descriptors_of_mapped_types() {
    assert_eq!(Datatype::from_type::<u8>().unwrap().descriptor(), TypeDescriptor::Unsigned(IntSize::U1));
    assert_eq!(Datatype::from_type::<u16>().unwrap().descriptor(), TypeDescriptor::Unsigned(IntSize::U2));
    assert_eq!(Datatype::from_type::<u32>().unwrap().descriptor(), TypeDescriptor::Unsigned(IntSize::U4));
    assert_eq!(Datatype::from_type::<u64>().unwrap().descriptor(), TypeDescriptor::Unsigned(IntSize::U8));
    assert_eq!(Datatype::from_type::<i8>().unwrap().descriptor(), TypeDescriptor::Integer(IntSize::U1));
    assert_eq!(Datatype::from_type::<i16>().unwrap().descriptor(), TypeDescriptor::Integer(IntSize::U2));
    assert_eq!(Datatype::from_type::<i32>().unwrap().descriptor(), TypeDescriptor::Integer(IntSize::U4));
    assert_eq!(Datatype::from_type::<i64>().unwrap().descriptor(), TypeDescriptor::Integer(IntSize::U8));
    assert_eq!(Datatype::from_type::<bool>().unwrap().descriptor(), TypeDescriptor::Boolean);

    assert_eq!(TypeDescriptor::Integer(IntSize::U8).size(), 8);
    assert_eq!(TypeDescriptor::Unsigned(IntSize::U2).size(), 2);
    assert_eq!(TypeDescriptor::Boolean.size(), 1);

    let d = TypeDescriptor::Integer(IntSize::U4);
    assert_eq!(d.to_c_repr(), d);
    assert_eq!(d.to_packed_repr(), d);
}

#[test]
fn filters_are_independent_flags() {
    let f = Filters::new().gzip(4).shuffle(true).clone();
    assert_eq!(f.get_gzip(), Some(4));
    assert_eq!(f.get_shuffle(), true);
    assert_eq!(f.get_fletcher32(), false);
    assert_eq!(f.get_scale_offset(), None);
    assert_ne!(f, Filters::default());
    assert_eq!(Filters::new(), Filters::default());
}
