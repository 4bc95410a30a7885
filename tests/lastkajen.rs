use lastkajen::decimal::decimal_string;
use lastkajen::download::{append_chunk, collect_chunks, next_copy_action, ChunkEvent, CopyAction};
use lastkajen::endpoints::{
    download_token_url, download_url, login_form, login_url, package_files_url,
    published_packages_url, token_for, user_files_url,
};
use lastkajen::error::LastkajenError;
use lastkajen::response::{check_status, error_from_body, from_decoded, ResponseStep};
use lastkajen::types::{
    DataPackageFile, DataPackageFolder, DownloadCategory, DownloadToken, PackageType, TargetFolder,
    Token, UserFile,
};

fn token(access: &str, expires_in: usize) -> Token {
    Token { access_token: access.to_string(), expires_in, is_external: false }
}

#[test]
fn only_status_200_is_decoded() {
    assert_eq!(check_status(200), ResponseStep::Decode);
    for status in [100u16, 201, 204, 301, 400, 401, 403, 404, 500, 503] {
        assert_eq!(check_status(status), ResponseStep::ReadErrorText);
    }
}

#[test]
fn rejected_login_reports_service_message() {
    assert_eq!(check_status(401), ResponseStep::ReadErrorText);
    let err = error_from_body(Ok("bad credentials".to_string()));
    match err {
        LastkajenError::LastkajenError(msg) => assert_eq!(msg, "bad credentials"),
        other => panic!("unexpected error {:?}", other),
    }
}

#[test]
fn empty_error_body_is_still_a_service_error() {
    let err = error_from_body(Ok(String::new()));
    assert!(matches!(err, LastkajenError::LastkajenError(ref m) if m.is_empty()));
}

#[test]
fn successful_login_keeps_token() {
    assert_eq!(check_status(200), ResponseStep::Decode);
    let result = from_decoded(Ok(token("abc", 3600)));
    match result {
        Ok(t) => {
            assert_eq!(t.access_token, "abc");
            assert_eq!(t.expires_in, 3600);
            assert!(!t.is_external);
        }
        Err(e) => panic!("unexpected error {:?}", e),
    }
}

#[test]
fn empty_package_listing_is_not_an_error() {
    let url = package_files_url(42);
    assert!(url.contains("/42"));
    assert_eq!(url, "https://lastkajen.trafikverket.se/api/DataPackage/GetDataPackageFiles/42");
    let files: Vec<DataPackageFile> = Vec::new();
    let result = from_decoded(Ok(files));
    assert!(matches!(result, Ok(ref v) if v.is_empty()));
}

#[test]
fn io_failure_becomes_io_error() {
    let io = std::io::Error::new(std::io::ErrorKind::Other, "disk full");
    assert!(matches!(LastkajenError::from(io), LastkajenError::IoError(_)));
}

#[test]
fn listing_urls() {
    assert_eq!(login_url(), "https://lastkajen.trafikverket.se/api/Identity/Login");
    assert_eq!(
        published_packages_url(),
        "https://lastkajen.trafikverket.se/api/DataPackage/GetPublishedDataPackages"
    );
    assert_eq!(user_files_url(), "https://lastkajen.trafikverket.se/api/file/GetUserFiles");
    assert_eq!(
        package_files_url(0),
        "https://lastkajen.trafikverket.se/api/DataPackage/GetDataPackageFiles/0"
    );
}

#[test]
fn login_form_fields() {
    let form = login_form("anna".to_string(), "SECRET-REDACTED".to_string());
    assert_eq!(form.len(), 2);
    assert_eq!(form[0], ("UserName".to_string(), "anna".to_string()));
    assert_eq!(form[1], ("Password".to_string(), "SECRET-REDACTED".to_string()));
}

#[test]
fn decimal_rendering() {
    assert_eq!(decimal_string(0), "0");
    assert_eq!(decimal_string(7), "7");
    assert_eq!(decimal_string(10), "10");
    assert_eq!(decimal_string(42), "42");
    assert_eq!(decimal_string(1234567890), "1234567890");
    assert_eq!(decimal_string(usize::MAX), usize::MAX.to_string());
}

#[test]
fn user_download_token_request() {
    let file = "a.zip".to_string();
    let category = DownloadCategory::User { file: &file };
    assert_eq!(
        download_token_url(&category),
        "https://lastkajen.trafikverket.se/api/file/GetUserFileDownloadToken?fileName=a.zip"
    );
    let t = token_for(&category, "tok123".to_string());
    assert_eq!(t, DownloadToken::User("tok123".to_string()));
}

#[test]
fn published_download_token_request() {
    let file = "roads.gpkg".to_string();
    let id: usize = 17;
    let category = DownloadCategory::Published { id: &id, file: &file };
    assert_eq!(
        download_token_url(&category),
        "https://lastkajen.trafikverket.se/api/file/GetDataPackageDownloadToken?id=17&fileName=roads.gpkg"
    );
    let t = token_for(&category, "xyz".to_string());
    assert_eq!(t, DownloadToken::Published("xyz".to_string()));
}

#[test]
fn stream_endpoints_differ_by_token_kind() {
    let published = download_url(&DownloadToken::Published("tok123".to_string()));
    let user = download_url(&DownloadToken::User("tok123".to_string()));
    assert_eq!(
        published,
        "https://lastkajen.trafikverket.se/api/file/GetDataPackageFile?token=tok123"
    );
    assert_eq!(user, "https://lastkajen.trafikverket.se/api/file/GetFileStream?token=tok123");
    assert!(!published.contains("GetFileStream"));
    assert!(!user.contains("GetDataPackageFile"));
}

fn chunks_of(total: usize, parts: usize) -> Vec<Vec<u8>> {
    let bytes: Vec<u8> = (0..total).map(|i| (i * 7 % 251) as u8).collect();
    let size = (total + parts - 1) / parts;
    bytes.chunks(size).map(|c| c.to_vec()).collect()
}

#[test]
fn copy_of_three_chunks_keeps_all_bytes() {
    let chunks = vec![vec![1u8; 3000], vec![2u8; 2500], vec![3u8; 3500]];
    let expected: Vec<u8> = chunks.concat();
    let mut sink: Vec<u8> = Vec::new();
    let mut events: Vec<ChunkEvent> = chunks.into_iter().map(ChunkEvent::Chunk).collect();
    events.push(ChunkEvent::End);
    let mut finished = false;
    for event in events {
        match next_copy_action(event) {
            CopyAction::Write(bytes) => append_chunk(&mut sink, &bytes),
            CopyAction::Finish => finished = true,
            CopyAction::Abort(e) => panic!("unexpected error {:?}", e),
        }
    }
    assert!(finished);
    assert_eq!(sink.len(), 9000);
    assert_eq!(sink, expected);
}

#[test]
fn collected_chunks_are_concatenated() {
    for parts in [1usize, 2, 9, 100] {
        let chunks = chunks_of(1000, parts);
        assert_eq!(chunks.len(), parts);
        let expected: Vec<u8> = chunks.concat();
        assert_eq!(collect_chunks(&chunks), expected);
    }
    assert!(collect_chunks(&Vec::new()).is_empty());
    assert_eq!(collect_chunks(&vec![vec![], vec![5u8], vec![]]), vec![5u8]);
}

#[test]
fn append_to_existing_bytes() {
    let mut sink = vec![9u8, 8];
    append_chunk(&mut sink, &[1, 2, 3]);
    assert_eq!(sink, vec![9, 8, 1, 2, 3]);
    append_chunk(&mut sink, &[]);
    assert_eq!(sink, vec![9, 8, 1, 2, 3]);
}

#[test]
fn token_expiry() {
    assert_eq!(token("abc", 3600).expires_at(1_700_000_000), 1_700_003_600);
    assert_eq!(token("abc", 0).expires_at(-5), -5);
    assert_eq!(token("abc", 60).expires_at(i64::MAX - 10), i64::MAX);
    assert_eq!(token("abc", usize::MAX).expires_at(0), i64::MAX);
    assert_eq!(token("abc", usize::MAX).expires_at(i64::MIN), (usize::MAX as i128 + i64::MIN as i128) as i64);
}

#[test]
fn data_model_values() {
    let folder = DataPackageFolder {
        id: 3,
        target_folder: TargetFolder { id: 1, name: "Vägdata".to_string(), path: "/v".to_string() },
        source_folder: "src".to_string(),
        name: "NVDB".to_string(),
        description: "Road data".to_string(),
        published: true,
    };
    assert_eq!(package_files_url(folder.id), "https://lastkajen.trafikverket.se/api/DataPackage/GetDataPackageFiles/3");
    let uf = UserFile { is_folder: false, name: "order.zip".to_string(), size: "1 MB".to_string(), date_time: "2024-01-01T00:00:00".to_string() };
    let t = token_for(&DownloadCategory::User { file: &uf.name }, "t".to_string());
    assert_eq!(download_url(&t), "https://lastkajen.trafikverket.se/api/file/GetFileStream?token=t");
    assert_ne!(PackageType::Published, PackageType::User);
}

#[test]
fn bare_status_becomes_status_error() {
    assert!(matches!(LastkajenError::from(503u16), LastkajenError::StatusError(503)));
}

#[test]
fn error_messages() {
    assert_eq!(LastkajenError::from(401u16).message(), "Api Request Error: HTTP status 401");
    assert_eq!(
        LastkajenError::LastkajenError("bad credentials".to_string()).message(),
        "Lastkajen Error: bad credentials"
    );
    let io = std::io::Error::new(std::io::ErrorKind::Other, "disk full");
    assert_eq!(LastkajenError::from(io).message(), "IO Error: disk full");
}
