use pretty_derby::error::AccountError;
use pretty_derby::route::supplied_route;
use pretty_derby::route::synthesize;
use pretty_derby::route::RouteGeometry;
use pretty_derby::route::RoutePoint;
use pretty_derby::route::LAP;
use pretty_derby::route::STRIDE;
use pretty_derby::route::TRACK_LENGTH;
use pretty_derby::route::TRACK_WIDTH;

fn cumulative_length(route: &[RoutePoint]) -> f64 {
    let mut total = 0.0f64;
    for pair in route.windows(2) {
        let east = (pair[1].east - pair[0].east) as f64;
        let north = (pair[1].north - pair[0].north) as f64;
        total += (east * east + north * north).sqrt();
    }
    total
}

fn check_route(length: i64, start_time: i64, keep_time: i64) {
    let route = synthesize(length, start_time, keep_time);
    let measured = cumulative_length(&route);
    assert!((measured - length as f64).abs() <= length as f64 / 100.0);
    assert_eq!(measured, length as f64);
    assert!(route.windows(2).all(|pair| pair[0].time <= pair[1].time));
    assert_eq!(route[0], RoutePoint { east: 0, north: 0, time: start_time });
    assert_eq!(route[route.len() - 1].time, start_time + keep_time);
    assert_eq!(route.len() as i64, (length + STRIDE - 1) / STRIDE + 1);
    for pair in route.windows(2) {
        let east = (pair[1].east - pair[0].east).abs();
        let north = (pair[1].north - pair[0].north).abs();
        assert!(east == 0 || north == 0);
        assert!(0 < east + north && east + north <= STRIDE);
    }
    for point in &route {
        assert!(0 <= point.east && point.east <= TRACK_LENGTH);
        assert!(0 <= point.north && point.north <= TRACK_WIDTH);
    }
}

#[test]
fn route_of_one_unit_has_its_length() {
    check_route(1_000_000, 1_700_000_000, 333);
}

#[test]
fn route_of_five_units_has_its_length() {
    check_route(5_000_000, 1_700_000_000, 1667);
}

#[test]
fn route_of_ten_units_has_its_length() {
    check_route(10_000_000, 1_700_000_000, 3333);
}

#[test]
fn route_of_a_jittered_mileage_has_its_length() {
    check_route(3_987_123, 1_699_998_665, 1335);
    check_route(999_001, 0, 0);
    check_route(1, -5, 5);
    check_route(4_999, 0, 1);
    check_route(5_001, 0, 1);
}

#[test]
fn short_route_runs_along_the_near_side() {
    assert_eq!(
        synthesize(12_000, 100, 4),
        vec![
            RoutePoint { east: 0, north: 0, time: 100 },
            RoutePoint { east: 5_000, north: 0, time: 101 },
            RoutePoint { east: 10_000, north: 0, time: 103 },
            RoutePoint { east: 12_000, north: 0, time: 104 },
        ]
    );
}

#[test]
fn route_turns_at_the_corners_and_closes_the_lap() {
    let route = synthesize(LAP + 2_500, 0, 0);
    assert_eq!(route.len(), 82);
    assert_eq!((route[30].east, route[30].north), (150_000, 0));
    assert_eq!((route[31].east, route[31].north), (150_000, 5_000));
    assert_eq!((route[40].east, route[40].north), (150_000, 50_000));
    assert_eq!((route[41].east, route[41].north), (145_000, 50_000));
    assert_eq!((route[70].east, route[70].north), (0, 50_000));
    assert_eq!((route[79].east, route[79].north), (0, 5_000));
    assert_eq!((route[80].east, route[80].north), (0, 0));
    assert_eq!((route[81].east, route[81].north), (2_500, 0));
}

#[test]
fn point_count_is_one_more_than_the_strides() {
    assert_eq!(synthesize(1, 0, 0).len(), 2);
    assert_eq!(synthesize(5_000, 0, 0).len(), 2);
    assert_eq!(synthesize(5_001, 0, 0).len(), 3);
    assert_eq!(synthesize(10_000_000, 0, 0).len(), 2001);
}

#[test]
fn supplied_document_is_passed_on_as_it_is() {
    let document = String::from("[{\"latitude\": 30.5, \"longitude\": 104.1}]");
    assert_eq!(supplied_route(document.clone()), Ok(RouteGeometry::Supplied(document)));
    assert_eq!(
        supplied_route(String::from("  {\"a\": [1, 2, {\"b\": null}]} ")),
        Ok(RouteGeometry::Supplied(String::from("  {\"a\": [1, 2, {\"b\": null}]} ")))
    );
}

#[test]
fn malformed_document_is_refused() {
    assert_eq!(supplied_route(String::from("")), Err(AccountError::RouteSynthesisError));
    assert_eq!(supplied_route(String::from("[1, 2")), Err(AccountError::RouteSynthesisError));
    assert_eq!(supplied_route(String::from("{} {}")), Err(AccountError::RouteSynthesisError));
    assert_eq!(supplied_route(String::from("not json")), Err(AccountError::RouteSynthesisError));
}
