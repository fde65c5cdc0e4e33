use fabseal_worker::image_key;
use fabseal_worker::input_key;
use fabseal_worker::keys::category_key;
use fabseal_worker::keys::KeyCategory;
use fabseal_worker::processed_image_key;
use fabseal_worker::result_key;
use fabseal_worker::RequestId;

#[test]
fn keys_have_the_documented_shape() {
    let id = RequestId::from(0xDEAD_BEEF);
    assert_eq!(result_key(id), "fsdata_v1:result:DEADBEEF");
    assert_eq!(input_key(id), "fsdata_v1:input:DEADBEEF");
    assert_eq!(image_key(id), "fsdata_v1:image:DEADBEEF");
    assert_eq!(processed_image_key(id), "fsdata_v1:processed_image:DEADBEEF");
}

#[test]
fn category_key_matches_the_named_builders() {
    let id = RequestId::from(0x0000_00FF);
    assert_eq!(category_key(KeyCategory::Result, id), result_key(id));
    assert_eq!(category_key(KeyCategory::Input, id), input_key(id));
    assert_eq!(category_key(KeyCategory::Image, id), image_key(id));
    assert_eq!(category_key(KeyCategory::ProcessedImage, id), processed_image_key(id));
}

#[test]
fn keys_differ_across_categories_for_one_identifier() {
    let id = RequestId::from(0xAA55_AA55);
    let keys = [result_key(id), input_key(id), image_key(id), processed_image_key(id)];
    for i in 0..keys.len() {
        for j in 0..keys.len() {
            if i != j {
                assert_ne!(keys[i], keys[j]);
            }
        }
    }
}

#[test]
fn keys_differ_across_identifiers_for_one_category() {
    let a = RequestId::from(0xDEAD_BEEF);
    let b = RequestId::from(0xDEAD_BEEE);
    assert_ne!(image_key(a), image_key(b));
    assert_ne!(result_key(a), result_key(b));
    assert_ne!(input_key(a), input_key(b));
    assert_ne!(processed_image_key(a), processed_image_key(b));
}
