use loaderinfo::accessors::{
    action_script_version, application_domain, bytes, bytes_loaded, bytes_total, class_init,
    content, content_type, copy_pairs, frame_rate, height, instance_init, is_url_inaccessible,
    loader_url, parameters, swf_version, url, width, ACTIONSCRIPT2, ACTIONSCRIPT3,
};
use loaderinfo::container::{rebuild_container, splice_tag_data, Endian};
use loaderinfo::model::{
    AvmType, Compression, ContentRef, DomainRef, LoaderInfoError, LoaderStream, Movie,
    MovieHeader, Pixels, Property, StageContext, StageRect, SwfSource,
};

fn ctx() -> StageContext {
    StageContext {
        compressed_length: 777,
        stage_root: ContentRef { id: 1 },
        global_domain: DomainRef { id: 10 },
    }
}

fn header(compression: Compression) -> MovieHeader {
    MovieHeader {
        compression,
        version: 6,
        stage_size: StageRect { x_min: 0, y_min: 0, x_max: 11000, y_max: 8000 },
        frame_rate: 24 * 256,
        num_frames: 1,
    }
}

fn movie(data: Vec<u8>) -> Movie {
    Movie {
        header: header(Compression::Lzma),
        compressed_length: 1000,
        data,
        url: Some("http://example.org/movie.swf".to_string()),
        loader_url: None,
        parameters: vec![
            ("a".to_string(), "1".to_string()),
            ("b".to_string(), "2".to_string()),
        ],
        avm_type: AvmType::Avm2,
    }
}

fn swf_stream(m: Movie) -> LoaderStream {
    LoaderStream::Swf(SwfSource { movie: m, root: ContentRef { id: 2 }, domain: DomainRef { id: 20 } })
}

fn le32(b: &[u8]) -> u32 {
    u32::from_le_bytes([b[0], b[1], b[2], b[3]])
}

fn writer_image_len(h: &MovieHeader) -> usize {
    let swf_header = swf::Header {
        compression: swf::Compression::None,
        version: h.version,
        stage_size: swf::Rectangle {
            x_min: swf::Twips::new(h.stage_size.x_min),
            x_max: swf::Twips::new(h.stage_size.x_max),
            y_min: swf::Twips::new(h.stage_size.y_min),
            y_max: swf::Twips::new(h.stage_size.y_max),
        },
        frame_rate: swf::Fixed8::from_bits(h.frame_rate),
        num_frames: h.num_frames,
    };
    let mut out = Vec::new();
    swf::write_swf(&swf_header, &[], &mut out).unwrap();
    assert_eq!(&out[out.len() - 2..], &[0, 0]);
    out.len()
}

#[test]
fn stage_root_availability() {
    let s = LoaderStream::Stage;
    let unsupported = |p| LoaderInfoError::StageUnsupported(p);
    assert_eq!(frame_rate(&s), Err(unsupported(Property::FrameRate)));
    assert_eq!(height(&s), Err(unsupported(Property::Height)));
    assert_eq!(width(&s), Err(unsupported(Property::Width)));
    assert_eq!(swf_version(&s), Err(unsupported(Property::SwfVersion)));
    assert_eq!(url(&s), Err(unsupported(Property::Url)));
    assert_eq!(loader_url(&s), Err(unsupported(Property::LoaderUrl)));
    assert_eq!(parameters(&s), Err(unsupported(Property::Parameters)));
    assert_eq!(bytes(&s).err(), Some(unsupported(Property::Bytes)));
    assert_eq!(action_script_version(&s), Err(unsupported(Property::ActionScriptVersion)));
    let c = ctx();
    assert_eq!(application_domain(&c, &s), DomainRef { id: 10 });
    assert_eq!(bytes_total(&c, &s), 777);
    assert_eq!(bytes_loaded(&c, &s), 777);
    assert_eq!(content(&c, &s), ContentRef { id: 1 });
    assert_eq!(content_type(&s), None);
    assert!(!is_url_inaccessible(&s));
}

#[test]
fn loaded_movie_properties() {
    let s = swf_stream(movie(vec![0, 0]));
    let c = ctx();
    assert_eq!(application_domain(&c, &s), DomainRef { id: 20 });
    assert_eq!(bytes_total(&c, &s), 1000);
    assert_eq!(bytes_loaded(&c, &s), 1000);
    assert_eq!(content(&c, &s), ContentRef { id: 2 });
    assert_eq!(content_type(&s), Some("application/x-shockwave-flash"));
    assert_eq!(frame_rate(&s), Ok(6144));
    assert_eq!(swf_version(&s), Ok(6));
    assert_eq!(action_script_version(&s), Ok(ACTIONSCRIPT3));
    assert!(!is_url_inaccessible(&s));
    let mut m = movie(vec![]);
    m.avm_type = AvmType::Avm1;
    assert_eq!(action_script_version(&swf_stream(m)), Ok(ACTIONSCRIPT2));
}

#[test]
fn construction_is_forbidden() {
    assert_eq!(instance_init(), Err(LoaderInfoError::ConstructionForbidden));
    assert_eq!(class_init(), Ok(()));
}

#[test]
fn url_fallbacks() {
    let mut m = movie(vec![]);
    assert_eq!(url(&swf_stream(m.clone())), Ok("http://example.org/movie.swf".to_string()));
    assert_eq!(loader_url(&swf_stream(m.clone())), Ok("http://example.org/movie.swf".to_string()));
    m.loader_url = Some("http://example.org/loader.swf".to_string());
    assert_eq!(loader_url(&swf_stream(m.clone())), Ok("http://example.org/loader.swf".to_string()));
    m.url = None;
    assert_eq!(url(&swf_stream(m.clone())), Ok(String::new()));
    m.loader_url = None;
    assert_eq!(loader_url(&swf_stream(m)), Ok(String::new()));
}

#[test]
fn parameters_keep_keys_once() {
    let s = swf_stream(movie(vec![]));
    let p = parameters(&s).unwrap();
    assert_eq!(p, vec![("a".to_string(), "1".to_string()), ("b".to_string(), "2".to_string())]);
    let mut keys: Vec<&String> = p.iter().map(|e| &e.0).collect();
    keys.sort();
    keys.dedup();
    assert_eq!(keys.len(), 2);
    assert_eq!(copy_pairs(&vec![]), vec![]);
}

#[test]
fn scenario_width_height_and_length() {
    let data: Vec<u8> = (0..5000u32).map(|i| (i % 251) as u8).collect();
    let s = swf_stream(movie(data.clone()));
    let w = width(&s).unwrap();
    let h = height(&s).unwrap();
    assert_eq!(w.whole_and_twips(), (550, 0));
    assert_eq!(h.whole_and_twips(), (400, 0));
    assert_eq!(w.twips as f64 / 20.0, 550.0);
    let header_len = writer_image_len(&header(Compression::Uncompressed)) - 2;
    let b = bytes(&s).unwrap();
    assert_eq!(header_len, 21);
    assert_eq!(b.bytes.len(), header_len + 5000);
    assert_eq!(le32(&b.bytes[4..8]) as usize, header_len + 5000);
    assert_eq!(&b.bytes[header_len..], &data[..]);
    assert_eq!(b.position, 0);
    assert_eq!(b.endian, Endian::Big);
}

#[test]
fn rebuilt_bytes_parse_back() {
    // one ShowFrame tag, then the end tag
    let data = vec![0x40, 0x00, 0x00, 0x00];
    let m = movie(data.clone());
    let b = rebuild_container(&m).unwrap();
    assert_eq!(&b.bytes[0..4], &[b'F', b'W', b'S', 6]);
    let parsed = swf::decompress_swf(&b.bytes[..]).unwrap();
    let h = &parsed.header;
    assert_eq!(h.compression(), swf::Compression::None);
    assert_eq!(h.version(), 6);
    assert_eq!(h.frame_rate(), swf::Fixed8::from_bits(24 * 256));
    assert_eq!(h.num_frames(), 1);
    let r = h.stage_size();
    assert_eq!((r.x_min.get(), r.y_min.get(), r.x_max.get(), r.y_max.get()), (0, 0, 11000, 8000));
    assert_eq!(h.uncompressed_len() as usize, b.bytes.len());
    assert_eq!(parsed.data, data);
}

#[test]
fn short_tag_data_shortens_output() {
    let m = movie(vec![]);
    let b = rebuild_container(&m).unwrap();
    let header_len = writer_image_len(&m.header) - 2;
    assert_eq!(b.bytes.len(), header_len);
    assert_eq!(le32(&b.bytes[4..8]) as usize, header_len);
}

#[test]
fn splice_exact_bytes() {
    let image = vec![1, 2, 3, 4, 9, 9, 9, 9, 5, 6, 0, 0];
    let r = splice_tag_data(image, &vec![7, 8, 9]).unwrap();
    assert_eq!(r, vec![1, 2, 3, 4, 13, 0, 0, 0, 5, 6, 7, 8, 9]);
}

#[test]
fn splice_rejects_unexpected_writer_output() {
    let bad = LoaderInfoError::InternalReconstructionInvariantViolated;
    assert_eq!(splice_tag_data(vec![0; 9], &vec![1]), Err(bad));
    assert_eq!(splice_tag_data(vec![0, 0, 0, 0, 0, 0, 0, 0, 0, 1], &vec![]), Err(bad));
    assert_eq!(splice_tag_data(vec![0, 0, 0, 0, 0, 0, 0, 0, 1, 0], &vec![]), Err(bad));
    assert_eq!(splice_tag_data(vec![0; 10], &vec![]), Ok(vec![0, 0, 0, 0, 8, 0, 0, 0]));
}

#[test]
fn pixels_round_down() {
    assert_eq!(Pixels { twips: 11010 }.whole_and_twips(), (550, 10));
    assert_eq!(Pixels { twips: -30 }.whole_and_twips(), (-2, 10));
    assert_eq!(Pixels { twips: -40 }.whole_and_twips(), (-2, 0));
    assert_eq!(Pixels { twips: 0 }.whole_and_twips(), (0, 0));
}

#[test]
fn negative_extent() {
    let mut m = movie(vec![]);
    m.header.stage_size = StageRect { x_min: 100, y_min: -20, x_max: 60, y_max: 20 };
    let s = swf_stream(m);
    assert_eq!(width(&s), Ok(Pixels { twips: -40 }));
    assert_eq!(height(&s), Ok(Pixels { twips: 40 }));
}

#[test]
fn uncompressed_header_copy() {
    let h = header(Compression::Zlib).uncompressed();
    assert_eq!(h.compression, Compression::Uncompressed);
    assert_eq!(h.version, 6);
    assert_eq!(h.stage_size, header(Compression::Zlib).stage_size);
}

#[test]
fn bytes_twice_equal() {
    let s = swf_stream(movie(vec![0x40, 0x00, 0x00, 0x00]));
    let b1 = bytes(&s).unwrap();
    let mut b2 = bytes(&s).unwrap();
    assert_eq!(b1.bytes, b2.bytes);
    b2.bytes[0] = 0;
    assert_ne!(b1.bytes, b2.bytes);
}

#[test]
fn rebuilt_header_fields_in_place() {
    let b = bytes(&swf_stream(movie(vec![9; 7]))).unwrap();
    let hl = writer_image_len(&header(Compression::Uncompressed)) - 2;
    assert_eq!(hl, 21);
    assert_eq!(b.bytes.len(), 28);
    assert_eq!(&b.bytes[hl - 4..hl], &[0x00, 0x18, 0x01, 0x00]);
    assert_eq!(&b.bytes[hl..], &[9; 7]);
}

#[test]
fn unencodable_rectangle_fails() {
    let mut m = movie(vec![]);
    m.header.stage_size.x_max = 0x4000_0000;
    assert_eq!(
        bytes(&swf_stream(m)).err(),
        Some(LoaderInfoError::InternalReconstructionInvariantViolated)
    );
    let mut m = movie(vec![]);
    m.header.stage_size.x_min = -0x4000_0000;
    m.header.stage_size.x_max = 0x3FFF_FFFF;
    assert!(bytes(&swf_stream(m)).is_ok());
}
