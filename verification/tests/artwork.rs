use soul_audio_desktop::artwork::{
    select_artwork, ArtworkData, ArtworkError, ArtworkExtractor, ArtworkMime, ArtworkWriter,
    PictureInfo, MAX_ARTWORK_SIZE,
};

fn picture(front: bool, data: Vec<u8>, mime: Option<&str>) -> PictureInfo {
    PictureInfo {
        is_cover_front: front,
        data,
        mime_type: mime.map(|m| m.to_string()),
    }
}

#[test]
fn extractor_creation() {
    let extractor = ArtworkExtractor::new(10);
    assert!(extractor.is_cache_empty());
}

#[test]
fn clear_cache_works() {
    let mut extractor = ArtworkExtractor::new(10);
    extractor.clear_cache();
    assert!(extractor.is_cache_empty());
}

#[test]
fn cache_gives_back_what_was_remembered() {
    let mut extractor = ArtworkExtractor::new(2);
    assert!(extractor.cached_artwork("/a.mp3").is_none());
    extractor.remember(
        "/a.mp3".to_string(),
        ArtworkData::new(vec![1, 2, 3], "image/png".to_string()),
    );
    let a = extractor.cached_artwork("/a.mp3").unwrap();
    assert_eq!(a.data, vec![1, 2, 3]);
    assert_eq!(a.mime_type, "image/png");
    assert!(!extractor.is_cache_empty());
    extractor.clear_cache();
    assert!(extractor.cached_artwork("/a.mp3").is_none());
}

#[test]
fn cache_of_size_zero_caches_nothing() {
    let mut extractor = ArtworkExtractor::new(0);
    extractor.remember("/a".to_string(), ArtworkData::new(vec![1], "image/jpeg".to_string()));
    extractor.remember("/b".to_string(), ArtworkData::new(vec![2], "image/jpeg".to_string()));
    assert!(extractor.cached_artwork("/a").is_none());
    assert!(extractor.cached_artwork("/b").is_none());
    assert!(extractor.is_cache_empty());
}

#[test]
fn full_cache_evicts_least_recently_used_only() {
    let mut extractor = ArtworkExtractor::new(2);
    extractor.remember("/a".to_string(), ArtworkData::new(vec![1], "image/jpeg".to_string()));
    extractor.remember("/b".to_string(), ArtworkData::new(vec![2], "image/jpeg".to_string()));
    assert_eq!(extractor.cached_artwork("/a").unwrap().data, vec![1]);
    extractor.remember("/c".to_string(), ArtworkData::new(vec![3], "image/png".to_string()));
    assert!(extractor.cached_artwork("/b").is_none());
    assert_eq!(extractor.cached_artwork("/a").unwrap().data, vec![1]);
    assert_eq!(extractor.cached_artwork("/c").unwrap().data, vec![3]);
}

#[test]
fn base64_encoding_is_standard_with_padding() {
    let a = ArtworkData::new(b"hello".to_vec(), "image/jpeg".to_string());
    assert_eq!(a.to_base64(), "aGVsbG8=");
    let b = ArtworkData::new(vec![0xFF, 0xEF, 0xBE], "image/png".to_string());
    assert_eq!(b.to_base64(), "/+++");
    let c = ArtworkData::new(vec![], "image/png".to_string());
    assert_eq!(c.to_base64(), "");
    let d = ArtworkData::new(b"ab".to_vec(), "image/png".to_string());
    assert_eq!(d.to_base64(), "YWI=");
}

#[test]
fn select_prefers_front_cover() {
    let pictures = vec![
        picture(false, vec![1], Some("image/png")),
        picture(true, vec![2], None),
        picture(true, vec![3], Some("image/gif")),
    ];
    let art = select_artwork(Some(pictures)).unwrap().unwrap();
    assert_eq!(art.data, vec![2]);
    assert_eq!(art.mime_type, "image/jpeg");
}

#[test]
fn select_falls_back_to_first_picture() {
    let pictures = vec![
        picture(false, vec![7], Some("image/png")),
        picture(false, vec![8], None),
    ];
    let art = select_artwork(Some(pictures)).unwrap().unwrap();
    assert_eq!(art.data, vec![7]);
    assert_eq!(art.mime_type, "image/png");
    assert!(select_artwork(None).unwrap().is_none());
    assert!(select_artwork(Some(vec![])).unwrap().is_none());
}

#[test]
fn select_refuses_oversized_artwork() {
    let pictures = vec![picture(true, vec![0u8; MAX_ARTWORK_SIZE + 1], None)];
    match select_artwork(Some(pictures)) {
        Err(ArtworkError::TooLarge(size, max)) => {
            assert_eq!(size, 5 * 1024 * 1024 + 1);
            assert_eq!(max, 5 * 1024 * 1024);
        }
        _ => panic!("expected TooLarge"),
    }
    let pictures = vec![picture(true, vec![0u8; MAX_ARTWORK_SIZE], None)];
    assert!(select_artwork(Some(pictures)).unwrap().is_some());
}

#[test]
fn artwork_error_messages() {
    assert_eq!(
        ArtworkError::TooLarge(6000000, 5242880).to_string(),
        "Artwork too large: 6000000 bytes (max 5242880 bytes)"
    );
    assert_eq!(ArtworkError::NoArtwork.to_string(), "No artwork found in file");
    assert_eq!(
        ArtworkError::FileNotFound("/x.mp3".to_string()).to_string(),
        "File not found: /x.mp3"
    );
    assert_eq!(ArtworkError::Io("denied".to_string()).to_string(), "I/O error: denied");
    assert_eq!(
        ArtworkError::Lofty("bad tag".to_string()).to_string(),
        "Metadata error: bad tag"
    );
}

#[test]
fn writer_picture_formats() {
    assert_eq!(ArtworkWriter::picture_format("image/png"), ArtworkMime::Png);
    assert_eq!(ArtworkWriter::picture_format("image/gif"), ArtworkMime::Gif);
    assert_eq!(ArtworkWriter::picture_format("image/bmp"), ArtworkMime::Bmp);
    assert_eq!(ArtworkWriter::picture_format("image/tiff"), ArtworkMime::Tiff);
    assert_eq!(ArtworkWriter::picture_format("image/webp"), ArtworkMime::Jpeg);
}
