use render_baby::texture::{process_textures, TextureData, TextureInfo};

#[test]
fn process_textures_flattens_and_records_offsets() {
    let textures = vec![
        TextureData::new(2, 1, vec![1, 2]),
        TextureData::new(1, 3, vec![3, 4, 5]),
        TextureData::new(1, 1, vec![6]),
    ];
    let (data, info) = process_textures(&textures);
    assert_eq!(data, vec![1, 2, 3, 4, 5, 6]);
    assert_eq!(
        info,
        vec![
            TextureInfo { offset: 0, width: 2, height: 1, _pad: 0 },
            TextureInfo { offset: 8, width: 1, height: 3, _pad: 0 },
            TextureInfo { offset: 20, width: 1, height: 1, _pad: 0 },
        ]
    );
}

#[test]
fn process_textures_offsets_follow_announced_size() {
    // the offset advances by 4 * width * height bytes even when the data is shorter
    let textures = vec![TextureData::new(2, 2, vec![7]), TextureData::new(1, 1, vec![8])];
    let (data, info) = process_textures(&textures);
    assert_eq!(data, vec![7, 8]);
    assert_eq!(info[1].offset, 16);
}

#[test]
fn process_textures_empty() {
    let (data, info) = process_textures(&[]);
    assert!(data.is_empty());
    assert!(info.is_empty());
}

#[test]
fn texture_new_keeps_fields() {
    let t = TextureData::new(3, 4, vec![1; 12]);
    assert_eq!(t.width, 3);
    assert_eq!(t.height, 4);
    assert_eq!(t.rgba_data.len(), 12);
}

#[test]
fn process_textures_records_byte_offsets() {
    let ts = vec![TextureData::new(2, 1, vec![1, 2]), TextureData::new(1, 3, vec![3, 4, 5])];
    let (data, info) = process_textures(&ts);
    assert_eq!(data, vec![1, 2, 3, 4, 5]);
    assert_eq!(info.len(), 2);
    assert_eq!((info[0].offset, info[0].width, info[0].height), (0, 2, 1));
    assert_eq!((info[1].offset, info[1].width, info[1].height), (8, 1, 3));
}
