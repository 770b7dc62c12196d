use tele::bot::GetUserProfilePhotosRequest;
use tele::common::UserId;
use tele::error::Error;

#[test]
fn validates_profile_photo_limit() {
    let mut request = GetUserProfilePhotosRequest::new(UserId(1));
    request.limit = Some(100);
    assert!(request.validate().is_ok());

    request.limit = Some(0);
    assert!(matches!(
        request.validate(),
        Err(Error::InvalidRequest { .. })
    ));

    let request = GetUserProfilePhotosRequest::new(UserId(0));
    assert!(matches!(
        request.validate(),
        Err(Error::InvalidRequest { .. })
    ));
}
