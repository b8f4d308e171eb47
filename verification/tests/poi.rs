use lib::gossip::Locale;
use lib::poi::{PointOfInterestLocaleRowLikeCpp, PointOfInterestLocaleStoreLikeCpp, PointOfInterestRowLikeCpp, PointOfInterestStoreLikeCpp};

const MAP_HALFSIZE: f32 = 17066.666;

fn on_map(row: &PointOfInterestRowLikeCpp) -> bool {
    let [x, y, z] = [row.position_x, row.position_y, row.position_z].map(f32::from_bits);
    let limit = MAP_HALFSIZE - 0.5;
    x.is_finite() && y.is_finite() && z.is_finite() && x.abs() <= limit && y.abs() <= limit
}

fn poi_row(id: u32, x: f32, y: f32, z: f32) -> PointOfInterestRowLikeCpp {
    PointOfInterestRowLikeCpp {
        id,
        position_x: x.to_bits(),
        position_y: y.to_bits(),
        position_z: z.to_bits(),
        icon: 7,
        flags: 8,
        importance: 9,
        name: format!("poi-{id}"),
        wmo_group_id: -1,
    }
}

fn locale_row(id: u32, locale: &str, name: &str) -> PointOfInterestLocaleRowLikeCpp {
    PointOfInterestLocaleRowLikeCpp { id, locale: locale.to_string(), name: name.to_string() }
}

#[test]
fn points_of_interest_skip_invalid_coordinates_like_cpp() {
    let limit = MAP_HALFSIZE - 0.5;
    let outcome = PointOfInterestStoreLikeCpp::from_rows_like_cpp(
        vec![poi_row(1, limit, -limit, 0.0), poi_row(2, limit + 1.0, 0.0, 0.0), poi_row(3, 0.0, f32::NAN, 0.0)],
        on_map,
    );

    assert_eq!(outcome.report.rows_seen, 3);
    assert_eq!(outcome.report.loaded_rows, 1);
    assert_eq!(outcome.report.skipped_invalid_coordinates.len(), 2);
    assert!(outcome.store.get_point_of_interest_like_cpp(1).is_some());
    assert!(outcome.store.get_point_of_interest_like_cpp(2).is_none());
}

#[test]
fn points_of_interest_duplicate_id_overwrites_like_cpp() {
    let outcome = PointOfInterestStoreLikeCpp::from_rows_like_cpp(
        vec![poi_row(1, 1.0, 2.0, 3.0), {
            let mut row = poi_row(1, 4.0, 5.0, 6.0);
            row.name = "replacement".to_string();
            row
        }],
        on_map,
    );

    let poi = outcome.store.get_point_of_interest_like_cpp(1).expect("duplicate ID should keep one map entry");

    assert_eq!(f32::from_bits(poi.position.x), 4.0);
    assert_eq!(poi.name, "replacement");
    assert_eq!(outcome.report.loaded_rows, 2);
    assert_eq!(outcome.store.len(), 1);
}

#[test]
fn point_of_interest_locales_skip_invalid_and_enus_like_cpp() {
    let store = PointOfInterestLocaleStoreLikeCpp::from_rows_like_cpp(vec![
        locale_row(1, "enUS", "Default"),
        locale_row(1, "esES", "Espanol"),
        locale_row(1, "bad", "Ignored"),
        locale_row(2, "frFR", "Francais"),
    ]);

    let locale = store.get_point_of_interest_locale_like_cpp(1).expect("esES locale should be loaded");
    assert_eq!(locale.len(), 1);
    assert_eq!(locale.name_like_cpp(Locale::EsES), Some("Espanol"));
    assert!(locale.name_like_cpp(Locale::EnUS).is_none());
    assert!(store.get_point_of_interest_locale_like_cpp(3).is_none());
}

#[test]
fn skipped_points_report_their_coordinates() {
    let outcome = PointOfInterestStoreLikeCpp::from_rows_like_cpp(vec![poi_row(5, 1.0e9, 0.0, 0.0)], on_map);
    assert_eq!(outcome.report.skipped_invalid_coordinates, vec![(5, 1.0e9f32.to_bits(), 0, 0)]);
    assert!(outcome.store.is_empty());
    let store = PointOfInterestLocaleStoreLikeCpp::from_rows_like_cpp(vec![
        locale_row(4, "deDE", "Alt"),
        locale_row(4, "deDE", "Neu"),
    ]);
    assert_eq!(store.get_point_of_interest_locale_like_cpp(4).unwrap().name_like_cpp(Locale::DeDE), Some("Neu"));
    assert_eq!(store.len(), 1);
    assert!(!store.is_empty());
}
