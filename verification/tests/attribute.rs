use hdf5::{Datatype, File, Filters};

#[test]
fn test_shape_ndim_size() {
    let mut file = File::in_memory();
    let d = file.new_attribute::<i32>().create(&mut file, "name1", (2, 3)).unwrap();
    assert_eq!(d.shape(), vec![2, 3]);
    assert_eq!(d.size(), 6);
    assert_eq!(d.ndim(), 2);
    assert_eq!(d.is_scalar(), false);

    let d = file.new_attribute::<u8>().create(&mut file, "name2", ()).unwrap();
    assert_eq!(d.shape(), vec![]);
    assert_eq!(d.size(), 1);
    assert_eq!(d.ndim(), 0);
    assert_eq!(d.is_scalar(), true);
}

#[test]
fn test_filters() {
    let mut file = File::in_memory();
    assert_eq!(
        file.new_dataset::<u32>().create_anon(&mut file, 100).unwrap().filters(),
        Filters::default()
    );
    assert_eq!(
        file.new_dataset::<u32>()
            .shuffle(true)
            .create_anon(&mut file, 100)
            .unwrap()
            .filters()
            .get_shuffle(),
        true
    );
    assert_eq!(
        file.new_dataset::<u32>()
            .fletcher32(true)
            .create_anon(&mut file, 100)
            .unwrap()
            .filters()
            .get_fletcher32(),
        true
    );
    assert_eq!(
        file.new_dataset::<u32>()
            .scale_offset(8)
            .create_anon(&mut file, 100)
            .unwrap()
            .filters()
            .get_scale_offset(),
        Some(8)
    );

    let mut file = File::in_memory();
    let filters = Filters::new().fletcher32(true).shuffle(true).clone();
    assert_eq!(
        file.new_dataset::<u32>().filters(&filters).create_anon(&mut file, 100).unwrap().filters(),
        filters
    );
}

#[test]
fn test_resizable() {
    let mut file = File::in_memory();
    assert_eq!(file.new_dataset::<u32>().create_anon(&mut file, 1).unwrap().is_resizable(), false);
    assert_eq!(
        file.new_dataset::<u32>().resizable(false).create_anon(&mut file, 1).unwrap().is_resizable(),
        false
    );
    assert_eq!(
        file.new_dataset::<u32>().resizable(true).create_anon(&mut file, 1).unwrap().is_resizable(),
        true
    );
}

#[test]
fn test_track_times() {
    let mut file = File::in_memory();
    assert_eq!(file.new_dataset::<u32>().create_anon(&mut file, 1).unwrap().tracks_times(), false);
    assert_eq!(
        file.new_dataset::<u32>()
            .track_times(false)
            .create_anon(&mut file, 1)
            .unwrap()
            .tracks_times(),
        false
    );
    assert_eq!(
        file.new_dataset::<u32>().track_times(true).create_anon(&mut file, 1).unwrap().tracks_times(),
        true
    );
}

#[test]
fn test_datatype() {
    let mut file = File::in_memory();
    assert_eq!(
        file.new_dataset::<i32>().create_anon(&mut file, 1).unwrap().dtype().unwrap(),
        Datatype::from_type::<i32>().unwrap()
    );
}

#[test]
fn test_create_anon() {
    let mut file = File::in_memory();
    let ds = file.new_dataset::<u32>().create(&mut file, "foo/bar", (1, 2)).unwrap();
    assert!(ds.is_valid());
    assert_eq!(ds.shape(), vec![1, 2]);
    assert_eq!(ds.name(), "/foo/bar");

    let ds = file.new_dataset::<u32>().create_anon(&mut file, (2, 3)).unwrap();
    assert!(ds.is_valid());
    assert_eq!(ds.name(), "");
    assert_eq!(ds.shape(), vec![2, 3]);
}

#[test]
fn test_fill_value() {
    let mut file = File::in_memory();

    let ds = file.new_dataset::<u16>().create_anon(&mut file, 100).unwrap();
    assert_eq!(ds.fill_value::<u8>().unwrap(), Some(0 as u8));
    assert_eq!(ds.fill_value::<u16>().unwrap(), Some(0 as u16));
    assert_eq!(ds.fill_value::<u32>().unwrap(), Some(0 as u32));
    assert_eq!(ds.fill_value::<u64>().unwrap(), Some(0 as u64));
    assert_eq!(ds.fill_value::<i8>().unwrap(), Some(0 as i8));
    assert_eq!(ds.fill_value::<i16>().unwrap(), Some(0 as i16));
    assert_eq!(ds.fill_value::<i32>().unwrap(), Some(0 as i32));
    assert_eq!(ds.fill_value::<i64>().unwrap(), Some(0 as i64));
    assert_eq!(ds.fill_value::<usize>().unwrap(), Some(0 as usize));
    assert_eq!(ds.fill_value::<isize>().unwrap(), Some(0 as isize));

    let ds = file.new_dataset::<u16>().fill_value(42).create_anon(&mut file, 100).unwrap();
    assert_eq!(ds.fill_value::<u8>().unwrap(), Some(42 as u8));
    assert_eq!(ds.fill_value::<u16>().unwrap(), Some(42 as u16));
    assert_eq!(ds.fill_value::<u32>().unwrap(), Some(42 as u32));
    assert_eq!(ds.fill_value::<u64>().unwrap(), Some(42 as u64));
    assert_eq!(ds.fill_value::<i8>().unwrap(), Some(42 as i8));
    assert_eq!(ds.fill_value::<i16>().unwrap(), Some(42 as i16));
    assert_eq!(ds.fill_value::<i32>().unwrap(), Some(42 as i32));
    assert_eq!(ds.fill_value::<i64>().unwrap(), Some(42 as i64));
    assert_eq!(ds.fill_value::<usize>().unwrap(), Some(42 as usize));
    assert_eq!(ds.fill_value::<isize>().unwrap(), Some(42 as isize));
}
