use scopobot::pack::{safe_path, Animation, PackError};

#[test]
fn variable_duration_and_oneshot_hold() {
    let a = Animation {
        file: "".into(),
        frames: 3,
        durations_ms: vec![900, 100, 1800],
        looping: true,
        regions: None,
    };
    assert_eq!(a.frame_at(950), (1, 50));
    assert_eq!(a.frame_at(2800), (0, 900));
    let b = Animation {
        looping: false,
        ..a
    };
    assert_eq!(b.frame_at(9000).0, 2);
}

#[test]
fn rejects_path_traversal() {
    assert!(safe_path("../secret.png").is_err());
    assert!(safe_path("C:\\secret.png").is_err());
    assert!(safe_path("/secret.png").is_err());
}

#[test]
fn accepts_paths_below_the_pack() {
    assert!(safe_path("sprites/idle.png").is_ok());
    assert!(safe_path("sprites/./idle.png").is_ok());
    assert!(safe_path("a..b/idle.png").is_ok());
    assert!(matches!(safe_path("./idle.png"), Err(PackError::PathOutsidePack)));
    assert!(safe_path("sprites/../../idle.png").is_err());
    assert!(safe_path("sprites/..").is_err());
}

#[test]
fn oneshot_holds_last_frame_for_a_second() {
    let a = Animation {
        file: "sprites/wave.png".into(),
        frames: 2,
        durations_ms: vec![100, 200],
        looping: false,
        regions: None,
    };
    assert_eq!(a.frame_at(0), (0, 100));
    assert_eq!(a.frame_at(150), (1, 150));
    assert_eq!(a.frame_at(300), (1, 1000));
}

use scopobot::pack::{check_manifest_size, AssetFile, CharacterPack, FoundAsset, Manifest};
use std::path::PathBuf;

fn png(w: u32, h: u32, f: impl Fn(u32, u32) -> [u8; 4]) -> Vec<u8> {
    let img = image::RgbaImage::from_fn(w, h, |x, y| image::Rgba(f(x, y)));
    let mut bytes = Vec::new();
    image::DynamicImage::ImageRgba8(img)
        .write_to(&mut std::io::Cursor::new(&mut bytes), image::ImageFormat::Png)
        .unwrap();
    bytes
}

fn crc32(data: &[u8]) -> u32 {
    let mut crc = 0xffff_ffffu32;
    for &b in data {
        crc ^= b as u32;
        for _ in 0..8 {
            crc = if crc & 1 != 0 { (crc >> 1) ^ 0xedb8_8320 } else { crc >> 1 };
        }
    }
    !crc
}

fn chunk(kind: &[u8; 4], data: &[u8]) -> Vec<u8> {
    let mut out = (data.len() as u32).to_be_bytes().to_vec();
    let mut body = kind.to_vec();
    body.extend_from_slice(data);
    out.extend_from_slice(&body);
    out.extend_from_slice(&crc32(&body).to_be_bytes());
    out
}

/// The start of a PNG that declares a `w` x `h` RGBA image.
fn png_header_only(w: u32, h: u32) -> Vec<u8> {
    let mut out = vec![0x89, b'P', b'N', b'G', 0x0d, 0x0a, 0x1a, 0x0a];
    let mut ihdr = w.to_be_bytes().to_vec();
    ihdr.extend_from_slice(&h.to_be_bytes());
    ihdr.extend_from_slice(&[8, 6, 0, 0, 0]);
    out.extend(chunk(b"IHDR", &ihdr));
    out.extend(chunk(b"IDAT", &[0x78, 0x9c]));
    out
}

fn found(key: &str, bytes: Vec<u8>) -> AssetFile {
    AssetFile::Found(FoundAsset {
        key: key.as_bytes().to_vec(),
        extension: Some("png".into()),
        size: bytes.len() as u64,
        contents: Ok(bytes),
    })
}

fn anim(file: &str, durations: Vec<u64>, regions: Option<Vec<[u32; 4]>>) -> Animation {
    Animation {
        file: file.into(),
        frames: durations.len() as u32,
        durations_ms: durations,
        looping: true,
        regions,
    }
}

fn manifest(animations: Vec<(&str, Animation)>) -> Manifest {
    Manifest {
        id: "tiny".into(),
        name: "Tiny".into(),
        author: "Tests".into(),
        description: "A test pack".into(),
        sprite_size: [8, 8],
        scale: 2,
        animations: animations.into_iter().map(|(n, a)| (n.to_string(), a)).collect(),
        captions: vec![],
        kind: String::new(),
    }
}

const RED: [u8; 4] = [255, 0, 0, 255];
const GREEN: [u8; 4] = [0, 255, 0, 255];
const BLUE: [u8; 4] = [0, 0, 255, 255];
const CLEAR: [u8; 4] = [0, 0, 0, 0];

fn at(sheet: &scopobot::pack::SpriteSheet, x: u32, y: u32) -> [u8; 4] {
    let i = ((y * sheet.width + x) * 4) as usize;
    [sheet.rgba[i], sheet.rgba[i + 1], sheet.rgba[i + 2], sheet.rgba[i + 3]]
}

fn strip() -> Vec<u8> {
    png(16, 8, |x, _| if x < 8 { RED } else { CLEAR })
}

fn atlas() -> Vec<u8> {
    png(8, 8, |x, y| {
        if x < 4 && y < 4 {
            GREEN
        } else if x >= 4 && y >= 4 {
            BLUE
        } else {
            CLEAR
        }
    })
}

fn assemble(m: Manifest, assets: Vec<AssetFile>) -> Result<CharacterPack, PackError> {
    CharacterPack::assemble(PathBuf::from("/packs/tiny"), m, assets)
}

#[test]
fn strips_load_as_is_and_atlas_regions_scale_to_frames() {
    let m = manifest(vec![
        ("idle", anim("sprites/idle.png", vec![100, 100], None)),
        ("wave", anim("atlas.png", vec![100, 100], Some(vec![[0, 0, 4, 4], [4, 4, 4, 4]]))),
    ]);
    let pack = assemble(m, vec![found("idle", strip()), found("atlas", atlas())]).unwrap();
    assert_eq!(pack.root, PathBuf::from("/packs/tiny"));
    assert_eq!(pack.sheets.len(), 2);
    let (name, idle) = &pack.sheets[0];
    assert_eq!(name, "idle");
    assert_eq!((idle.width, idle.height), (16, 8));
    assert_eq!(at(idle, 0, 0), RED);
    assert_eq!(at(idle, 15, 7), CLEAR);
    let wave = pack.sheet("wave").unwrap();
    assert_eq!((wave.width, wave.height), (16, 8));
    assert_eq!(wave.rgba.len(), 16 * 8 * 4);
    for (x, y) in [(0, 0), (7, 7), (3, 5)] {
        assert_eq!(at(wave, x, y), GREEN);
        assert_eq!(at(wave, x + 8, y), BLUE);
    }
    assert!(pack.provides("idle"));
    assert!(!pack.provides("sleep"));
    assert_eq!(pack.resolve("sleep").0, "idle");
    assert_eq!(pack.resolve("wave").0, "wave");
    assert!(pack.sheet("sleep").is_none());
}

#[test]
fn one_file_may_serve_several_animations() {
    let m = manifest(vec![
        ("blink", anim("sprites/idle.png", vec![100, 100], None)),
        ("idle", anim("sprites/idle.png", vec![200, 300], None)),
    ]);
    let pack = assemble(m, vec![found("idle", strip()), found("idle", strip())]).unwrap();
    assert_eq!(pack.sheets[0].1.rgba, pack.sheets[1].1.rgba);
}

#[test]
fn pack_metadata_is_checked_first() {
    let idle = || anim("idle.png", vec![100], None);
    let mut m = manifest(vec![("idle", idle())]);
    m.id = String::new();
    assert!(matches!(assemble(m, vec![]), Err(PackError::InvalidMetadata)));
    let mut m = manifest(vec![("idle", idle())]);
    m.name = "x".repeat(101);
    assert!(matches!(assemble(m, vec![]), Err(PackError::InvalidMetadata)));
    let mut m = manifest(vec![("idle", idle())]);
    m.name = "é".repeat(50);
    assert!(matches!(assemble(m, vec![]), Err(PackError::AssetNotRead)));
    let mut m = manifest(vec![("idle", idle())]);
    m.animations = (0..65).map(|i| (format!("a{i:02}"), idle())).collect();
    assert!(matches!(assemble(m, vec![]), Err(PackError::InvalidMetadata)));
    let mut m = manifest(vec![("idle", idle())]);
    m.sprite_size = [7, 8];
    assert!(matches!(assemble(m, vec![]), Err(PackError::InvalidDimensions)));
    let mut m = manifest(vec![("idle", idle())]);
    m.sprite_size = [8, 129];
    assert!(matches!(assemble(m, vec![]), Err(PackError::InvalidDimensions)));
    let mut m = manifest(vec![("idle", idle())]);
    m.scale = 9;
    assert!(matches!(assemble(m, vec![]), Err(PackError::InvalidDimensions)));
    let m = manifest(vec![("wave", idle())]);
    assert!(matches!(assemble(m, vec![]), Err(PackError::MissingIdle)));
    assert!(check_manifest_size(131072).is_ok());
    assert!(matches!(check_manifest_size(131073), Err(PackError::ManifestTooLarge)));
}

#[test]
fn timings_and_paths_are_checked_per_animation() {
    let m = manifest(vec![("idle", anim("idle.png", vec![41, 100], None))]);
    assert!(matches!(assemble(m, vec![]), Err(PackError::InvalidTiming(n)) if n == "idle"));
    let mut a = anim("idle.png", vec![100, 100], None);
    a.frames = 3;
    let m = manifest(vec![("idle", a)]);
    assert!(matches!(assemble(m, vec![]), Err(PackError::InvalidTiming(_))));
    let m = manifest(vec![("idle", anim("idle.png", vec![60_001], None))]);
    assert!(matches!(assemble(m, vec![]), Err(PackError::InvalidTiming(_))));
    let m = manifest(vec![("idle", anim("../idle.png", vec![100], None))]);
    assert!(matches!(assemble(m, vec![]), Err(PackError::PathOutsidePack)));
}

#[test]
fn what_the_platform_found_decides_the_rest() {
    let m = || manifest(vec![("idle", anim("sprites/idle.png", vec![100, 100], None))]);
    assert!(matches!(assemble(m(), vec![AssetFile::OutsidePack]), Err(PackError::LinkOutsidePack)));
    assert!(matches!(assemble(m(), vec![AssetFile::NotLookedUp]), Err(PackError::AssetNotRead)));
    assert!(matches!(assemble(m(), vec![]), Err(PackError::AssetNotRead)));
    assert!(matches!(
        assemble(m(), vec![AssetFile::Missing("gone".into())]),
        Err(PackError::Unreadable(t)) if t == "gone"
    ));
    let with = |f: fn(&mut FoundAsset)| {
        let mut asset = FoundAsset {
            key: b"idle".to_vec(),
            extension: Some("png".into()),
            size: 10,
            contents: Ok(strip()),
        };
        f(&mut asset);
        assemble(m(), vec![AssetFile::Found(asset)])
    };
    assert!(with(|_| {}).is_ok());
    assert!(matches!(with(|a| a.extension = Some("gif".into())), Err(PackError::NotPng)));
    assert!(matches!(with(|a| a.extension = None), Err(PackError::NotPng)));
    assert!(matches!(with(|a| a.size = 4_194_305), Err(PackError::SpriteTooLarge)));
    assert!(with(|a| a.size = 4_194_304).is_ok());
    assert!(matches!(
        with(|a| a.contents = Err("denied".into())),
        Err(PackError::Unreadable(t)) if t == "denied"
    ));
    assert!(matches!(with(|a| a.contents = Ok(b"not a png".to_vec())), Err(PackError::Image(_))));
}

#[test]
fn strips_and_regions_must_fit() {
    let m = manifest(vec![("idle", anim("idle.png", vec![100, 100], None))]);
    let wide = png(24, 8, |_, _| RED);
    match assemble(m, vec![found("idle", wide)]) {
        Err(PackError::StripSize { name, expected, found }) => {
            assert_eq!(name, "idle");
            assert_eq!(expected, (16, 8));
            assert_eq!(found, (24, 8));
        }
        other => panic!("unexpected {other:?}"),
    }
    let m = manifest(vec![("idle", anim("a.png", vec![100, 100], Some(vec![[0, 0, 4, 4]])))]);
    assert!(matches!(assemble(m, vec![found("a", atlas())]), Err(PackError::RegionCount(_))));
    let m = manifest(vec![(
        "idle",
        anim("a.png", vec![100, 100], Some(vec![[0, 0, 4, 4], [5, 5, 4, 4]])),
    )]);
    assert!(matches!(assemble(m, vec![found("a", atlas())]), Err(PackError::RegionOutside(_))));
    let m = manifest(vec![(
        "idle",
        anim("a.png", vec![100, 100], Some(vec![[0, 0, 4, 4], [0, 0, 0, 4]])),
    )]);
    assert!(matches!(assemble(m, vec![found("a", atlas())]), Err(PackError::RegionOutside(_))));
}

#[test]
fn decoded_pixels_are_limited() {
    let m = manifest(vec![("idle", anim("big.png", vec![100], Some(vec![[0, 0, 8, 8]])))]);
    let big = png_header_only(5000, 5000);
    assert!(matches!(assemble(m, vec![found("big", big)]), Err(PackError::DecodedTooLarge)));
}

#[test]
fn valid_animations_always_show_one_of_their_frames() {
    let durations = vec![42, 60_000, 100];
    for looping in [true, false] {
        let a = Animation {
            file: "a.png".into(),
            frames: 3,
            durations_ms: durations.clone(),
            looping,
            regions: None,
        };
        assert!(a.has_valid_timing());
        for elapsed in [0, 41, 42, 43, 60_041, 60_042, 60_141, 60_142, 120_000, u64::MAX] {
            let (frame, left) = a.frame_at(elapsed);
            assert!(frame < 3);
            assert!(left > 0);
            assert!(left <= durations[frame as usize] || (!looping && frame == 2 && left == 1000));
        }
        if looping {
            assert_eq!(a.frame_at(10), a.frame_at(10 + 60_142));
        }
    }
    let bad = Animation {
        file: "a.png".into(),
        frames: 2,
        durations_ms: vec![100],
        looping: true,
        regions: None,
    };
    assert!(!bad.has_valid_timing());
}

#[test]
fn refusals_read_as_the_pack_rules() {
    assert_eq!(PackError::InvalidTiming("wave".into()).message(), "Invalid timing in wave");
    assert_eq!(
        PackError::StripSize {
            name: "idle".into(),
            expected: (128, 32),
            found: (64, 32)
        }
        .message(),
        "idle: expected 128×32 horizontal strip, got (64, 32)"
    );
    assert_eq!(PackError::DecodedTooLarge.message(), "Decoded pack exceeds 32 MB");
    assert_eq!(
        PackError::RegionOutside("walk".into()).message(),
        "walk: atlas rectangle outside image"
    );
    assert_eq!(PackError::Unreadable("gone".into()).message(), "gone");
}

#[test]
fn manifests_are_keyed_by_name_in_order() {
    let a = || anim("a.png", vec![100], None);
    assert!(manifest(vec![("blink", a()), ("idle", a()), ("wave", a())]).has_ordered_keys());
    assert!(manifest(vec![("idle", a()), ("idle_b", a())]).has_ordered_keys());
    assert!(manifest(vec![]).has_ordered_keys());
    assert!(!manifest(vec![("wave", a()), ("idle", a())]).has_ordered_keys());
    assert!(!manifest(vec![("idle", a()), ("idle", a())]).has_ordered_keys());
    let mut m = manifest(vec![("idle", a())]);
    m.captions = vec![("wave".into(), "Hi".into()), ("blink".into(), "Oh".into())];
    assert!(!m.has_ordered_keys());
    m.captions.reverse();
    assert!(m.has_ordered_keys());
    let pack = assemble(
        manifest(vec![("idle", anim("sprites/idle.png", vec![100, 100], None))]),
        vec![found("idle", strip())],
    )
    .unwrap();
    assert_eq!(pack.sheets[0].0, "idle");
}
