use fabseal_worker::HttpSettings;
use fabseal_worker::ImageType;
use fabseal_worker::Limits;
use fabseal_worker::RedisSettings;
use fabseal_worker::RequestSettings;
use fabseal_worker::ResultType;
use fabseal_worker::StoredImage;

#[test]
fn redis_defaults_point_at_the_local_store() {
    let settings = RedisSettings::default();
    assert_eq!(settings.address, "127.0.0.1:6379");
    assert!(settings.db_id.is_none());
    assert!(settings.password.is_none());
}

#[test]
fn limit_defaults_match_the_documented_expirations() {
    let limits = Limits::default();
    assert_eq!(limits.queue_limit, 50);
    assert_eq!(limits.image_ttl, 600);
    assert_eq!(limits.result_ttl, 600);
    assert_eq!(limits.session_ttl, 1800);
}

#[test]
fn http_defaults_point_at_the_local_endpoint() {
    let settings = HttpSettings::default();
    assert_eq!(settings.endpoint, "127.0.0.1:8080");
    assert!(settings.cookie_domain.is_none());
}

#[test]
fn records_hold_their_plain_values() {
    let image = StoredImage { image_type: ImageType::PNG, image: b"PNGDATA".to_vec() };
    assert_eq!(image.image_type, ImageType::PNG);
    assert_eq!(image.image, b"PNGDATA");
    let settings = RequestSettings {
        start_x: 0,
        end_x: 64,
        start_y: 8,
        end_y: 72,
        is_inverted: false,
        is_low_quality: true,
    };
    assert_eq!(settings.end_x - settings.start_x, 64);
    assert_ne!(ResultType::Model, ResultType::Heightmap);
}
