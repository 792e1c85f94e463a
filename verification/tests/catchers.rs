use vehicle_store::controller::catchers::{internal_error, not_found};

#[test]
fn when_not_found_then_responds_with_404() {
    let response = not_found("/unexisting_path");

    assert_eq!(
        "Oh no! We couldn't find the requested path '/unexisting_path'".to_string(),
        response
    );
}

#[test]
fn when_internal_error_then_responds_with_500() {
    let response = internal_error();

    assert_eq!("Whoops! Looks like we messed up.", response);
}
