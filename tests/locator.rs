use prompt_sanitizer::error::SanitizeError;
use prompt_sanitizer::locator::{
    development_candidates, executable_name, locate_engine, Probe,
};

fn probe(path: &str, exists: bool) -> Probe {
    Probe { path: path.to_string(), exists }
}

fn dev(existing: &[bool]) -> Vec<Probe> {
    development_candidates()
        .into_iter()
        .zip(existing.iter())
        .map(|(p, e)| Probe { path: p, exists: *e })
        .collect()
}

#[test]
fn executable_names() {
    assert_eq!(executable_name(true), "prompt-sanitizer.exe");
    assert_eq!(executable_name(false), "prompt-sanitizer");
}

#[test]
fn development_candidates_in_order() {
    assert_eq!(
        development_candidates(),
        vec![
            "bin/prompt-sanitizer.exe",
            "bin/prompt-sanitizer",
            "src-tauri/bin/prompt-sanitizer.exe",
            "src-tauri/bin/prompt-sanitizer",
            "../../engine/go/cmd/main.exe",
            "../../engine/go/cmd/prompt-sanitizer.exe",
        ]
    );
}

#[test]
fn packaged_executable_takes_precedence() {
    let packaged = Some(probe("/opt/app/resources/prompt-sanitizer", true));
    let r = locate_engine(&packaged, &dev(&[true, true, true, true, true, true]));
    assert_eq!(r, Ok("/opt/app/resources/prompt-sanitizer".to_string()));
}

#[test]
fn missing_packaged_falls_back_to_first_dev_candidate() {
    let packaged = Some(probe("/opt/app/resources/prompt-sanitizer", false));
    let r = locate_engine(&packaged, &dev(&[false, false, true, false, true, false]));
    assert_eq!(r, Ok("src-tauri/bin/prompt-sanitizer.exe".to_string()));
}

#[test]
fn last_dev_candidate_is_found() {
    let r = locate_engine(&None, &dev(&[false, false, false, false, false, true]));
    assert_eq!(r, Ok("../../engine/go/cmd/prompt-sanitizer.exe".to_string()));
}

#[test]
fn nothing_found_without_packaged_dir() {
    let r = locate_engine(&None, &dev(&[false; 6]));
    assert_eq!(r, Err(SanitizeError::NotFound { packaged_dir: false }));
    let r = locate_engine(&None, &vec![]);
    assert_eq!(r, Err(SanitizeError::NotFound { packaged_dir: false }));
}

#[test]
fn nothing_found_with_packaged_dir() {
    let packaged = Some(probe("/opt/app/resources/prompt-sanitizer", false));
    let r = locate_engine(&packaged, &dev(&[false; 6]));
    assert_eq!(r, Err(SanitizeError::NotFound { packaged_dir: true }));
    let a = SanitizeError::NotFound { packaged_dir: true }.message();
    let b = SanitizeError::NotFound { packaged_dir: false }.message();
    assert_ne!(a, b);
    assert!(a.starts_with("找不到 Go sidecar 二进制文件"));
    assert!(b.starts_with("找不到 Go sidecar 二进制文件"));
    assert!(b.contains("未打包"));
    assert!(a.contains("资源目录中没有"));
}
