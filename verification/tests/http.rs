use site_backend::http::Method;
use site_backend::http::Route;
use site_backend::http::Status;

#[test]
fn status_codes() {
    assert_eq!(Status::Success.code(), 200);
    assert_eq!(Status::Created.code(), 201);
    assert_eq!(Status::BadRequest.code(), 400);
    assert_eq!(Status::InternalServerError.code(), 500);
}

#[test]
fn routes_compare_by_method_and_path() {
    let a = Route { method: Method::Get, path: "/".to_string() };
    let b = Route { method: Method::Get, path: "/".to_string() };
    let c = Route { method: Method::Patch, path: "/".to_string() };
    assert_eq!(a, b);
    assert_ne!(a, c);
}
