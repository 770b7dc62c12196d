use tele::error::Error;
use tele::file::GetFileRequest;

#[test]
fn validates_get_file_request() {
    assert!(GetFileRequest::new("file-1".to_owned()).validate().is_ok());

    for file_id in ["", " ", "file\n1"] {
        assert!(matches!(
            GetFileRequest::new(file_id.to_owned()).validate(),
            Err(Error::InvalidRequest { .. })
        ));
    }
}
