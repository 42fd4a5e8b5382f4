use icon_service::classify::{classify, PathKind};
use icon_service::encode::{encode, png_data_uri};
use icon_service::icon::{IconManager, Platform};
use icon_service::launch::{code_text, open_software};
use icon_service::raster::{
    raster_step, IconError, PixelBuffer, RasterAction, RasterEvent, RasterState, Release,
};
use icon_service::resolver::{resolve_shortcut, shortcut_command, trim_spaces, ShellOutcome};
use icon_service::service::{
    greet, run_pipeline, service_start, service_step, ServiceAction, ServiceEvent, ServiceState,
};
use icon_service::wide::encode_wide_null;

const PREFIX: &str = "data:image/png;base64,";

#[test]
fn classify_direct_paths() {
    assert_eq!(classify("C:\\app.exe"), PathKind::Direct);
    assert_eq!(classify("note.txt"), PathKind::Direct);
    assert_eq!(classify("lnk"), PathKind::Direct);
    assert_eq!(classify(""), PathKind::Direct);
    assert_eq!(classify("C:\\link.lnk.bak"), PathKind::Direct);
}

#[test]
fn classify_indirection_paths() {
    assert_eq!(classify("C:\\link.lnk"), PathKind::Indirect);
    assert_eq!(classify("C:\\LINK.LNK"), PathKind::Indirect);
    assert_eq!(classify("a.LnK"), PathKind::Indirect);
    assert_eq!(classify(".lnk"), PathKind::Indirect);
}

#[test]
fn encode_empty_buffer_is_empty_string() {
    assert_eq!(encode(&Vec::new()), "");
}

#[test]
fn encode_known_vectors() {
    assert_eq!(encode(&b"f".to_vec()), format!("{}Zg==", PREFIX));
    assert_eq!(encode(&b"fo".to_vec()), format!("{}Zm8=", PREFIX));
    assert_eq!(encode(&b"foo".to_vec()), format!("{}Zm9v", PREFIX));
    assert_eq!(encode(&b"foob".to_vec()), format!("{}Zm9vYg==", PREFIX));
    assert_eq!(encode(&b"fooba".to_vec()), format!("{}Zm9vYmE=", PREFIX));
    assert_eq!(encode(&b"foobar".to_vec()), format!("{}Zm9vYmFy", PREFIX));
}

#[test]
fn encode_nonempty_starts_with_prefix() {
    let out = encode(&vec![0u8, 255, 17]);
    assert!(out.starts_with(PREFIX));
    assert!(out.len() > PREFIX.len());
}

#[test]
fn data_uri_composition() {
    assert_eq!(png_data_uri("AAAA"), format!("{}AAAA", PREFIX));
    assert_eq!(png_data_uri(""), PREFIX);
}

#[test]
fn trim_spaces_behavior() {
    assert_eq!(trim_spaces("  C:\\x.exe \r\n"), "C:\\x.exe");
    assert_eq!(trim_spaces("\t\r\n "), "");
    assert_eq!(trim_spaces(""), "");
    assert_eq!(trim_spaces("no-trim"), "no-trim");
    assert_eq!(trim_spaces("a b"), "a b");
    assert_eq!(trim_spaces("\u{3000}wide\u{00A0}"), "wide");
    assert_eq!(trim_spaces(" x "), "x".trim());
}

#[test]
fn resolve_shortcut_outcomes() {
    assert_eq!(resolve_shortcut(&ShellOutcome::NotRun), None);
    assert_eq!(
        resolve_shortcut(&ShellOutcome::Ran {
            exited_ok: false,
            stdout: "C:\\target.exe".to_string(),
        }),
        None
    );
    assert_eq!(
        resolve_shortcut(&ShellOutcome::Ran { exited_ok: true, stdout: "  \r\n".to_string() }),
        None
    );
    assert_eq!(
        resolve_shortcut(&ShellOutcome::Ran {
            exited_ok: true,
            stdout: " C:\\target.exe\r\n".to_string(),
        }),
        Some("C:\\target.exe".to_string())
    );
}

#[test]
fn shortcut_command_text() {
    assert_eq!(
        shortcut_command("C:\\l.lnk"),
        "(New-Object -COM WScript.Shell).CreateShortcut('C:\\l.lnk').TargetPath"
    );
}

#[test]
fn open_software_success_above_threshold() {
    assert_eq!(open_software(33), Ok(()));
    assert_eq!(open_software(1000), Ok(()));
}

#[test]
fn open_software_failure_embeds_code() {
    let err = open_software(2).unwrap_err();
    assert_eq!(err, "Failed to open software: ShellExecute failed with code 2");
    let err = open_software(32).unwrap_err();
    assert_eq!(err, "Failed to open software: ShellExecute failed with code 32");
    let err = open_software(0).unwrap_err();
    assert!(err.contains("code 0"));
    let err = open_software(-5).unwrap_err();
    assert!(err.ends_with("code -5"));
}

#[test]
fn code_text_values() {
    assert_eq!(code_text(0), "0");
    assert_eq!(code_text(7), "7");
    assert_eq!(code_text(-12), "-12");
    assert_eq!(code_text(2147483647), "2147483647");
    assert_eq!(code_text(-2147483648), "-2147483648");
}

fn step(s: RasterState, e: RasterEvent) -> (RasterState, RasterAction) {
    raster_step(s, e)
}

#[test]
fn raster_success_path() {
    let (s, a) = step(
        RasterState::Start,
        RasterEvent::Extracted { count: 1, large: 7, small: 9 },
    );
    assert!(matches!(a, RasterAction::QueryIconInfo { icon: 7 }));
    let (s, a) = step(s, RasterEvent::InfoQueried { ok: true, mask: 3, color: 4 });
    assert!(matches!(a, RasterAction::CreateSurface));
    let (s, a) = step(s, RasterEvent::SurfaceCreated { dc: 11 });
    assert!(matches!(a, RasterAction::CreateBitmap { surface: 11 }));
    let (s, a) = step(s, RasterEvent::BitmapCreated { bitmap: 12 });
    assert!(matches!(a, RasterAction::CopyBits { surface: 11, bitmap: 12, color: 4 }));
    let data: Vec<u8> = vec![5u8; 4096];
    let (s, a) = step(s, RasterEvent::BitsCopied { data });
    assert!(matches!(a, RasterAction::Finish));
    match s {
        RasterState::Done { result, releases } => {
            let pb = result.expect("success path must yield pixels");
            assert_eq!(pb.width, 32);
            assert_eq!(pb.height, 32);
            assert_eq!(pb.data.len(), 4096);
            assert!(pb.data.iter().all(|b| *b == 5));
            assert_eq!(
                releases,
                vec![
                    Release::Deselect,
                    Release::Bitmap(12),
                    Release::Surface(11),
                    Release::Icon(7),
                    Release::Icon(9),
                    Release::Bitmap(4),
                    Release::Bitmap(3),
                ]
            );
        }
        _ => panic!("session should be done"),
    }
}

#[test]
fn raster_short_copy_yields_full_zero_buffer() {
    let (s, _) = step(
        RasterState::Start,
        RasterEvent::Extracted { count: 1, large: 7, small: 0 },
    );
    let (s, _) = step(s, RasterEvent::InfoQueried { ok: true, mask: 3, color: 4 });
    let (s, _) = step(s, RasterEvent::SurfaceCreated { dc: 11 });
    let (s, _) = step(s, RasterEvent::BitmapCreated { bitmap: 12 });
    let (s, _) = step(s, RasterEvent::BitsCopied { data: vec![1u8; 10] });
    match s {
        RasterState::Done { result, .. } => {
            let pb = result.unwrap();
            assert_eq!(pb.data.len(), 4096);
            assert!(pb.data.iter().all(|b| *b == 0));
        }
        _ => panic!("session should be done"),
    }
}

#[test]
fn raster_no_icon() {
    let (s, a) = step(
        RasterState::Start,
        RasterEvent::Extracted { count: 0, large: 0, small: 0 },
    );
    assert!(matches!(a, RasterAction::Finish));
    match s {
        RasterState::Done { result, releases } => {
            assert_eq!(result.unwrap_err(), IconError::NoIconFound);
            assert!(releases.is_empty());
        }
        _ => panic!("session should be done"),
    }
}

#[test]
fn raster_small_icon_chosen_when_large_missing() {
    let (_, a) = step(
        RasterState::Start,
        RasterEvent::Extracted { count: 1, large: 0, small: 5 },
    );
    assert!(matches!(a, RasterAction::QueryIconInfo { icon: 5 }));
}

#[test]
fn raster_info_failure_releases_icons_only() {
    let (s, _) = step(
        RasterState::Start,
        RasterEvent::Extracted { count: 2, large: 7, small: 9 },
    );
    let (s, _) = step(s, RasterEvent::InfoQueried { ok: false, mask: 0, color: 0 });
    match s {
        RasterState::Done { result, releases } => {
            assert_eq!(result.unwrap_err(), IconError::IconInfoUnavailable);
            assert_eq!(releases, vec![Release::Icon(7), Release::Icon(9)]);
        }
        _ => panic!("session should be done"),
    }
}

#[test]
fn raster_surface_failure_releases_icons_and_bitmaps() {
    let (s, _) = step(
        RasterState::Start,
        RasterEvent::Extracted { count: 1, large: 7, small: 0 },
    );
    let (s, _) = step(s, RasterEvent::InfoQueried { ok: true, mask: 3, color: 4 });
    let (s, _) = step(s, RasterEvent::SurfaceCreated { dc: 0 });
    match s {
        RasterState::Done { result, releases } => {
            assert_eq!(result.unwrap_err(), IconError::SurfaceCreationFailed);
            assert_eq!(
                releases,
                vec![Release::Icon(7), Release::Bitmap(4), Release::Bitmap(3)]
            );
        }
        _ => panic!("session should be done"),
    }
}

#[test]
fn raster_bitmap_failure_releases_surface_first() {
    let (s, _) = step(
        RasterState::Start,
        RasterEvent::Extracted { count: 1, large: 7, small: 9 },
    );
    let (s, _) = step(s, RasterEvent::InfoQueried { ok: true, mask: 3, color: 4 });
    let (s, _) = step(s, RasterEvent::SurfaceCreated { dc: 11 });
    let (s, _) = step(s, RasterEvent::BitmapCreated { bitmap: 0 });
    match s {
        RasterState::Done { result, releases } => {
            assert_eq!(result.unwrap_err(), IconError::BitmapCreationFailed);
            assert_eq!(
                releases,
                vec![
                    Release::Surface(11),
                    Release::Icon(7),
                    Release::Icon(9),
                    Release::Bitmap(4),
                    Release::Bitmap(3),
                ]
            );
        }
        _ => panic!("session should be done"),
    }
}

fn run_service(
    path: &str,
    target: Option<&str>,
    target_icon: Option<&str>,
    direct_icon: Option<&str>,
) -> String {
    let (mut state, mut action) = service_start(path);
    loop {
        match action {
            ServiceAction::ResolveTarget { .. } => {
                let (s, a) = service_step(
                    state,
                    ServiceEvent::TargetResolved { target: target.map(|t| t.to_string()) },
                );
                state = s;
                action = a;
            }
            ServiceAction::FetchIcon { path: p } => {
                let payload = if Some(p.as_str()) == target {
                    target_icon.map(|x| x.to_string())
                } else {
                    direct_icon.map(|x| x.to_string())
                };
                let (s, a) = service_step(state, ServiceEvent::IconFetched { payload });
                state = s;
                action = a;
            }
            ServiceAction::Finish => {
                match state {
                    ServiceState::Done { result } => return result,
                    _ => panic!("finish without a result"),
                }
            }
        }
    }
}

#[test]
fn service_direct_path_success() {
    let out = run_service("C:\\app.exe", None, None, Some("iVBORw0KGgo="));
    assert_eq!(out, format!("{}iVBORw0KGgo=", PREFIX));
    assert!(out.starts_with(PREFIX) && out.len() > PREFIX.len());
}

#[test]
fn service_shortcut_with_valid_target() {
    let out = run_service(
        "C:\\link.lnk",
        Some("C:\\app.exe"),
        Some("iVBORw0KGgo="),
        None,
    );
    assert_eq!(out, format!("{}iVBORw0KGgo=", PREFIX));
}

#[test]
fn service_shortcut_with_broken_target_falls_back() {
    // No target resolves: the pipeline re-runs on the shortcut itself,
    // which has no embedded resource either, so the result is empty.
    let out = run_service("C:\\link.lnk", None, None, None);
    assert_eq!(out, "");
}

#[test]
fn service_shortcut_target_fetch_fails_then_fallback_succeeds() {
    let out = run_service("C:\\link.lnk", Some("C:\\gone.exe"), None, Some("QUJD"));
    assert_eq!(out, format!("{}QUJD", PREFIX));
}

#[test]
fn service_never_errors_for_odd_paths() {
    assert_eq!(run_service("", None, None, None), "");
    assert_eq!(run_service("C:\\does-not-exist.xyz", None, None, None), "");
}

#[test]
fn service_is_idempotent_for_unchanged_environment() {
    let first = run_service("C:\\link.lnk", Some("C:\\app.exe"), Some("AAECAw=="), None);
    let second = run_service("C:\\link.lnk", Some("C:\\app.exe"), Some("AAECAw=="), None);
    assert_eq!(first, second);
    let third = run_service("C:\\app.exe", None, None, Some("Zm9v"));
    let fourth = run_service("C:\\app.exe", None, None, Some("Zm9v"));
    assert_eq!(third, fourth);
}

#[test]
fn run_pipeline_matches_event_driven_runs() {
    let cases: Vec<(&str, Option<&str>, Option<&str>, Option<&str>)> = vec![
        ("C:\\app.exe", None, None, Some("iVBORw0KGgo=")),
        ("C:\\app.exe", None, None, None),
        ("C:\\link.lnk", Some("C:\\app.exe"), Some("iVBORw0KGgo="), None),
        ("C:\\link.lnk", Some("C:\\gone.exe"), None, Some("QUJD")),
        ("C:\\link.lnk", None, None, None),
        ("C:\\link.lnk", None, None, Some("Zm9v")),
    ];
    for (path, target, target_icon, direct_icon) in cases {
        let looped = run_service(path, target, target_icon, direct_icon);
        let composed = run_pipeline(
            path,
            target.map(|x| x.to_string()),
            target_icon.map(|x| x.to_string()),
            direct_icon.map(|x| x.to_string()),
        );
        assert_eq!(looped, composed);
    }
}

#[test]
fn executable_icon_per_platform() {
    let manager = IconManager::new();
    let icon = manager
        .get_executable_icon(
            Platform::Windows,
            Some(Ok(PixelBuffer { width: 32, height: 32, data: vec![9u8; 4096] })),
        )
        .unwrap();
    assert_eq!((icon.width, icon.height), (32, 32));
    assert_eq!(icon.data.len(), 4096);
    assert_eq!(icon.format, "rgba");

    let err = manager
        .get_executable_icon(Platform::Windows, Some(Err(IconError::SurfaceCreationFailed)))
        .unwrap_err();
    assert_eq!(err, IconError::SurfaceCreationFailed);

    let err = manager.get_executable_icon(Platform::Windows, None).unwrap_err();
    assert_eq!(err, IconError::NoIconFound);

    let stub = manager.get_executable_icon(Platform::MacOs, None).unwrap();
    assert_eq!((stub.width, stub.height, stub.data.len()), (0, 0, 0));
    assert_eq!(stub.format, "");

    let stub = manager.get_executable_icon(Platform::Linux, None).unwrap();
    assert_eq!((stub.width, stub.height, stub.data.len()), (0, 0, 0));
    assert_eq!(stub.format, "");

    let empty = manager.get_executable_icon(Platform::Other, None).unwrap();
    assert_eq!((empty.width, empty.height, empty.data.len()), (0, 0, 0));
    assert_eq!(empty.format, "");
}

#[test]
fn stub_icons_direct() {
    let manager = IconManager::new();
    let mac = manager.get_macos_app_icon().unwrap();
    assert_eq!((mac.width, mac.height, mac.data.len()), (0, 0, 0));
    assert_eq!(mac.format, "");
    let lin = manager.get_linux_app_icon().unwrap();
    assert_eq!((lin.width, lin.height, lin.data.len()), (0, 0, 0));
    assert_eq!(lin.format, "");
}

#[test]
fn wide_encoding() {
    assert_eq!(encode_wide_null("AB"), vec![65u16, 66, 0]);
    assert_eq!(encode_wide_null(""), vec![0u16]);
    assert_eq!(encode_wide_null("\u{20AC}"), vec![0x20ACu16, 0]);
    assert_eq!(encode_wide_null("\u{1D11E}"), vec![0xD834u16, 0xDD1E, 0]);
    assert_eq!(encode_wide_null("C:\\a"), vec![67u16, 58, 92, 97, 0]);
}

#[test]
fn greet_text() {
    assert_eq!(greet("World"), "Hello, World! You've been greeted from Rust!");
}
