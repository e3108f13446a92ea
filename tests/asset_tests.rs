use voxel_engine::asset::{encode_asset, Asset, AssetError, ImageFormat};

#[test]
fn unrecognized_extensions_are_skipped() {
    let files = [("png", vec![0x89u8, b'P', b'N', b'G']), ("toml", b"hello = \"world\"".to_vec()), ("xyz", vec![1, 2, 3])];
    let assets: Vec<Asset> = files.into_iter().filter_map(|(ext, data)| encode_asset(ext, data).unwrap()).collect();
    assert_eq!(assets.len(), 2);
    assert_eq!(assets[0], Asset::Image { data: vec![0x89, b'P', b'N', b'G'], format: ImageFormat::Png });
    assert_eq!(assets[1], Asset::Text { value: String::from("hello = \"world\"") });
}

#[test]
fn images_keep_their_bytes() {
    assert_eq!(encode_asset("jpg", vec![1, 2]), Ok(Some(Asset::Image { data: vec![1, 2], format: ImageFormat::Jpeg })));
    assert_eq!(encode_asset("jpeg", vec![3]), Ok(Some(Asset::Image { data: vec![3], format: ImageFormat::Jpeg })));
}

#[test]
fn text_must_be_utf8() {
    assert_eq!(encode_asset("txt", "héllo".as_bytes().to_vec()), Ok(Some(Asset::Text { value: String::from("héllo") })));
    assert_eq!(encode_asset("toml", vec![0xff, 0xfe]), Err(AssetError::InvalidText));
    assert_eq!(encode_asset("PNG", vec![1]), Ok(None));
    assert_eq!(encode_asset("", vec![]), Ok(None));
}
