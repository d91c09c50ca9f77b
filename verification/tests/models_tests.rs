use std::path::Path;

use mim_tts::models::{
    check_download, download_url, model_rel_path, is_installed, model_def, model_defs, model_path, statuses,
    DownloadError, ModelError,
};

#[test]
fn model_path_accepts_known_model_ids_only() {
    let root = Path::new("/tmp/mim-tts-test");
    assert_eq!(
        model_path(root, "tiny").unwrap(),
        root.join("models").join("ggml-tiny.bin")
    );
    assert!(model_path(root, "../tiny").is_err());
}

#[test]
fn model_definitions_have_size_thresholds() {
    for model in model_defs() {
        assert!(model.min_bytes > 1_000_000);
        assert!(model.file.ends_with(".bin"));
    }
}

#[test]
fn model_def_lookup_and_error_message() {
    assert_eq!(model_def("base").unwrap().file, "ggml-base.bin");
    assert_eq!(model_def("small").unwrap().min_bytes, 480_000_000);
    let err = model_def("huge").unwrap_err();
    assert_eq!(err, ModelError::UnknownModel("huge".to_string()));
    assert_eq!(err.message(), "Unknown model: huge");
}

#[test]
fn installed_needs_full_size() {
    assert_eq!(is_installed("tiny", None), Ok(false));
    assert_eq!(is_installed("tiny", Some(74_999_999)), Ok(false));
    assert_eq!(is_installed("tiny", Some(75_000_000)), Ok(true));
    assert!(is_installed("medium", Some(1)).is_err());
}

#[test]
fn statuses_cover_catalogue() {
    let s = statuses(&vec![Some(80_000_000), None]);
    assert_eq!(s.len(), 3);
    assert_eq!(s[0].id, "tiny");
    assert!(s[0].installed);
    assert_eq!(s[0].size_bytes, Some(80_000_000));
    assert_eq!(s[1].name, "Base");
    assert!(!s[1].installed);
    assert_eq!(s[2].file, "ggml-small.bin");
    assert_eq!(s[2].size_bytes, None);
}

#[test]
fn download_checks() {
    let def = model_def("tiny").unwrap();
    assert_eq!(
        download_url(&def),
        "https://huggingface.co/ggerganov/whisper.cpp/resolve/main/ggml-tiny.bin"
    );
    assert_eq!(
        check_download(&def, 10, Some(20)),
        Err(DownloadError::LengthMismatch { written: 10, expected: 20 })
    );
    assert_eq!(check_download(&def, 10, None), Err(DownloadError::TooSmall));
    assert_eq!(check_download(&def, 80_000_000, Some(80_000_000)), Ok(()));
    assert_eq!(check_download(&def, 75_000_000, None), Ok(()));
}

#[test]
fn model_rel_path_names_models_dir_and_file() {
    assert_eq!(model_rel_path("small"), Ok(("models", "ggml-small.bin")));
    assert_eq!(model_rel_path("../tiny"), Err(ModelError::UnknownModel("../tiny".to_string())));
    let root = std::path::Path::new("/data/app");
    assert_eq!(model_path(root, "base").unwrap(), root.join("models").join("ggml-base.bin"));
}
