use base64::Engine;
use helioscope::bridge::{
    check_image, decimal, exit_outcome, locate_paths, plan_invocation, read_outcome,
    resolve_paths, spawn_failure_error, BridgePaths, TileRequest,
};
use helioscope::paths::{join_path, parent_dir};
use helioscope::encoding::png_data_url_of;
use helioscope::output::{declared_output_path, is_white_space_char};

fn paths() -> BridgePaths {
    resolve_paths("/home/u/proj/gui", "/home/u/proj")
}

fn request() -> TileRequest {
    TileRequest {
        latitude: "37.7749".to_string(),
        longitude: "-122.4194".to_string(),
        zoom: 12,
        radius: 3,
        provider: "osm".to_string(),
    }
}

#[test]
fn decimal_text_of_integers() {
    assert_eq!(decimal(0), "0");
    assert_eq!(decimal(7), "7");
    assert_eq!(decimal(10), "10");
    assert_eq!(decimal(305), "305");
    assert_eq!(decimal(u32::MAX), "4294967295");
}

#[test]
fn joins_paths_like_a_path_buffer() {
    assert_eq!(join_path("a", "b"), "a/b");
    assert_eq!(join_path("a/", "b"), "a/b");
    assert_eq!(join_path("", "b"), "b");
    assert_eq!(join_path("a", "/x/y.png"), "/x/y.png");
    assert_eq!(join_path("/w", "tiles/out.png"), "/w/tiles/out.png");
}

#[test]
fn resolves_interpreter_and_script() {
    let p = paths();
    assert_eq!(p.interpreter, "/home/u/proj/.venv/bin/python");
    assert_eq!(p.script, "/home/u/proj/gui/imagenRunner.py");
    assert_eq!(p.workdir, "/home/u/proj/gui");
}

#[test]
fn missing_interpreter_blocks_the_run() {
    let p = paths();
    let r = plan_invocation(&p, &request(), false, true);
    let e = r.err().unwrap();
    assert_eq!(e, "Python venv not found at /home/u/proj/.venv/bin/python");
    assert!(e.contains(&p.interpreter));
    // the interpreter is checked first
    let e2 = plan_invocation(&p, &request(), false, false).err().unwrap();
    assert!(e2.contains(&p.interpreter));
}

#[test]
fn missing_script_blocks_the_run() {
    let p = paths();
    let e = plan_invocation(&p, &request(), true, false).err().unwrap();
    assert_eq!(e, "imagenRunner.py not found at /home/u/proj/gui/imagenRunner.py");
    assert!(e.contains(&p.script));
}

#[test]
fn invocation_passes_arguments_in_order() {
    let p = paths();
    let inv = plan_invocation(&p, &request(), true, true).ok().unwrap();
    assert_eq!(inv.program, "/home/u/proj/.venv/bin/python");
    assert_eq!(inv.workdir, "/home/u/proj/gui");
    assert_eq!(
        inv.args,
        vec![
            "/home/u/proj/gui/imagenRunner.py".to_string(),
            "37.7749".to_string(),
            "-122.4194".to_string(),
            "12".to_string(),
            "3".to_string(),
            "osm".to_string(),
        ]
    );
}

#[test]
fn failed_exit_returns_stderr_verbatim() {
    let stderr = "Traceback (most recent call last):\n  ValueError: bad provider\n";
    let r = exit_outcome("/w", false, "tiles/out.png\n", stderr);
    assert_eq!(r, Err(stderr.to_string()));
    assert_eq!(exit_outcome("/w", false, "", ""), Err(String::new()));
}

#[test]
fn last_line_of_output_is_the_image_path() {
    let stdout = "fetching tiles\nstitching 9 tiles\ntiles/out.png\n";
    assert_eq!(exit_outcome("/w", true, stdout, ""), Ok("/w/tiles/out.png".to_string()));
    assert_eq!(exit_outcome("/w", true, "x\n  tiles/a.png  ", ""), Ok("/w/tiles/a.png".to_string()));
    assert_eq!(exit_outcome("/w", true, "x\r\ntiles/b.png\r\n", ""), Ok("/w/tiles/b.png".to_string()));
    assert_eq!(exit_outcome("/w", true, "/abs/c.png", ""), Ok("/abs/c.png".to_string()));
}

#[test]
fn blank_last_line_declares_no_path() {
    let msg = Err("Python did not return an output path".to_string());
    assert_eq!(exit_outcome("/w", true, "tiles/out.png\n   \n", ""), msg);
    assert_eq!(exit_outcome("/w", true, "tiles/out.png\n\n", ""), msg);
    assert_eq!(exit_outcome("/w", true, "", ""), msg);
    assert_eq!(exit_outcome("/w", true, "\n", ""), msg);
    assert_eq!(declared_output_path("a\n\t \u{3000}"), None);
    assert_eq!(declared_output_path(" p.png \n"), Some("p.png".to_string()));
}

#[test]
fn white_space_chars() {
    assert!(is_white_space_char(' '));
    assert!(is_white_space_char('\r'));
    assert!(is_white_space_char('\u{a0}'));
    assert!(is_white_space_char('\u{3000}'));
    assert!(!is_white_space_char('a'));
    assert!(!is_white_space_char('\u{200b}'));
}

#[test]
fn missing_image_names_its_path() {
    assert_eq!(check_image("/w/tiles/out.png", true), Ok(()));
    let e = check_image("/w/tiles/out.png", false).err().unwrap();
    assert_eq!(e, "Image file not found at /w/tiles/out.png");
}

#[test]
fn image_bytes_become_a_png_data_url() {
    assert_eq!(png_data_url_of(&Vec::new()), "data:image/png;base64,");
    assert_eq!(png_data_url_of(&b"hello".to_vec()), "data:image/png;base64,aGVsbG8=");
    assert_eq!(png_data_url_of(&b"hi".to_vec()), "data:image/png;base64,aGk=");
    assert_eq!(png_data_url_of(&b"abc".to_vec()), "data:image/png;base64,YWJj");
    assert_eq!(
        png_data_url_of(&vec![0xfb, 0xff, 0x00]),
        "data:image/png;base64,+/8A"
    );
}

#[test]
fn whole_request_with_existing_image() {
    let bytes: Vec<u8> = vec![0x89, b'P', b'N', b'G', 13, 10, 26, 10, 0, 0, 0, 13, 255];
    let p = paths();
    let inv = plan_invocation(&p, &request(), true, true).ok().unwrap();
    let image = exit_outcome(&inv.workdir, true, "level 12\n9 tiles\ntiles/out.png\n", "")
        .ok()
        .unwrap();
    assert_eq!(image, "/home/u/proj/gui/tiles/out.png");
    assert_eq!(check_image(&image, true), Ok(()));
    let url = read_outcome(Ok(bytes.clone())).ok().unwrap();
    let expected = format!(
        "data:image/png;base64,{}",
        base64::engine::general_purpose::STANDARD.encode(&bytes)
    );
    assert_eq!(url, expected);
}

#[test]
fn data_url_payload_decodes_to_the_bytes() {
    for bytes in [vec![], vec![1u8], vec![1, 2], vec![1, 2, 3], (0..=255u8).collect::<Vec<u8>>()] {
        let url = read_outcome(Ok(bytes.clone())).ok().unwrap();
        let payload = url.strip_prefix("data:image/png;base64,").unwrap();
        let back = base64::engine::general_purpose::STANDARD.decode(payload).unwrap();
        assert_eq!(back, bytes);
    }
}

#[test]
fn read_and_spawn_failures_carry_the_reason() {
    assert_eq!(
        read_outcome(Err("permission denied".to_string())),
        Err("Failed to read PNG: permission denied".to_string())
    );
    assert_eq!(
        spawn_failure_error("No such file or directory"),
        "Failed to spawn python: No such file or directory"
    );
}

#[test]
fn parent_directories() {
    assert_eq!(parent_dir("/home/u/proj/gui/src-tauri"), Some("/home/u/proj/gui".to_string()));
    assert_eq!(parent_dir("/home/u/"), Some("/home".to_string()));
    assert_eq!(parent_dir("/home"), Some("/".to_string()));
    assert_eq!(parent_dir("a//b"), Some("a".to_string()));
    assert_eq!(parent_dir("a"), Some(String::new()));
    assert_eq!(parent_dir("/"), None);
    assert_eq!(parent_dir(""), None);
}

#[test]
fn paths_from_the_current_directory() {
    let p = locate_paths("/home/u/proj/gui/src-tauri").ok().unwrap();
    assert_eq!(p.interpreter, "/home/u/proj/.venv/bin/python");
    assert_eq!(p.script, "/home/u/proj/gui/imagenRunner.py");
    assert_eq!(p.workdir, "/home/u/proj/gui");
    let top = locate_paths("/gui/src-tauri").ok().unwrap();
    assert_eq!(top.interpreter, "/.venv/bin/python");
    assert_eq!(locate_paths("/").err().unwrap(), "Cannot find gui dir");
    assert_eq!(locate_paths("/src-tauri").err().unwrap(), "Cannot find project root");
}
