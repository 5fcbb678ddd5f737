use appstream::collection::Collection;
use appstream::error::ParseError;
use flate2::write::GzEncoder;
use flate2::Compression;
use std::io::Write;

const MARKUP: &str = "<components version=\"0.8\" origin=\"flatpak\"><component><id>org.example.A</id></component><component><id>org.example.B</id></component></components>";
const KEY_MAPPING: &str = "Version: '0.8'\nOrigin: main\n---\nID: org.example.A\n---\nID: org.example.B\n---\nID: org.example.C\n";

fn gzip(content: &[u8]) -> Vec<u8> {
    let mut encoder = GzEncoder::new(Vec::new(), Compression::default());
    encoder.write_all(content).unwrap();
    encoder.finish().unwrap()
}

#[test]
fn gzipped_markup_is_loaded() {
    let packed = gzip(MARKUP.as_bytes());
    assert_ne!(packed.as_slice(), MARKUP.as_bytes());
    let collection = Collection::from_gzipped_bytes(&packed).unwrap();
    assert_eq!(2, collection.components.len());
    assert_eq!(Some("flatpak".into()), collection.origin);
    assert_eq!("0.8", collection.version);
    assert_eq!(collection, Collection::from_xml_bytes(MARKUP.as_bytes()).unwrap());
}

#[test]
fn gzipped_key_mapping_is_loaded() {
    let packed = gzip(KEY_MAPPING.as_bytes());
    let collection = Collection::from_yaml_gzipped_bytes(&packed).unwrap();
    assert_eq!(collection.components.len(), 3);
    assert_eq!(collection, Collection::from_yaml_str(KEY_MAPPING).unwrap());
    assert_eq!(collection, Collection::from_yaml_bytes(KEY_MAPPING.as_bytes()).unwrap());
}

#[test]
fn truncated_stream_is_a_decompression_failure() {
    let packed = gzip(MARKUP.as_bytes());
    for keep in [0, 1, 5, 10, packed.len() / 2, packed.len() - 9, packed.len() - 1] {
        assert_eq!(
            Collection::from_gzipped_bytes(&packed[..keep]),
            Err(ParseError::DecompressionFailure),
            "kept {} bytes",
            keep
        );
        assert_eq!(
            Collection::from_yaml_gzipped_bytes(&packed[..keep]),
            Err(ParseError::DecompressionFailure)
        );
    }
}

#[test]
fn plain_bytes_are_no_gzip_stream() {
    assert_eq!(
        Collection::from_gzipped_bytes(MARKUP.as_bytes()),
        Err(ParseError::DecompressionFailure)
    );
}

#[test]
fn corrupt_stream_is_a_decompression_failure() {
    let mut packed = gzip(MARKUP.as_bytes());
    let last = packed.len() - 5;
    packed[last] ^= 0xff;
    assert_eq!(Collection::from_gzipped_bytes(&packed), Err(ParseError::DecompressionFailure));
}

#[test]
fn sound_stream_with_bad_content_is_a_malformed_tree() {
    assert_eq!(
        Collection::from_gzipped_bytes(&gzip(b"<components version=\"1\">")),
        Err(ParseError::MalformedTree)
    );
    assert_eq!(
        Collection::from_yaml_gzipped_bytes(&gzip(&[0xc3, 0x28])),
        Err(ParseError::MalformedTree)
    );
}
