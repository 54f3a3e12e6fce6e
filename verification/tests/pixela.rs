use typix::pixela::{baseline_of, FetchRequest, Fetched, ReportRequest, API};
use typix::tally::Tally;

fn account() -> API {
    API::new("alice".to_string(), "s3cr3t".to_string())
}

#[test]
fn pixel_url_names_user_graph_and_day() {
    assert_eq!(
        account().pixel_url("typing", "20240131"),
        "https://pixe.la/v1/users/alice/graphs/typing/20240131"
    );
    assert_eq!(
        API::new(String::new(), String::new()).pixel_url("", ""),
        "https://pixe.la/v1/users//graphs//"
    );
}

#[test]
fn get_pixel_on_a_day() {
    assert_eq!(
        account().get_pixel_on("typing", "20240131"),
        FetchRequest {
            url: "https://pixe.la/v1/users/alice/graphs/typing/20240131".to_string(),
            token: "s3cr3t".to_string(),
        }
    );
}

#[test]
fn post_pixel_on_a_day() {
    assert_eq!(
        account().post_pixel_on("typing", "20240131", 150),
        ReportRequest {
            url: "https://pixe.la/v1/users/alice/graphs/typing/20240131".to_string(),
            token: "s3cr3t".to_string(),
            quantity: 150,
        }
    );
}

#[test]
fn get_pixel_asks_for_today() {
    let before = chrono::Local::now().format("%Y%m%d").to_string();
    let request = account().get_pixel("typing");
    let after = chrono::Local::now().format("%Y%m%d").to_string();
    assert!(
        request == account().get_pixel_on("typing", &before)
            || request == account().get_pixel_on("typing", &after)
    );
}

#[test]
fn post_pixel_reports_for_today() {
    let before = chrono::Local::now().format("%Y%m%d").to_string();
    let request = account().post_pixel("typing", 50);
    let after = chrono::Local::now().format("%Y%m%d").to_string();
    assert!(
        request == account().post_pixel_on("typing", &before, 50)
            || request == account().post_pixel_on("typing", &after, 50)
    );
    assert_eq!(request.quantity, 50);
    assert_eq!(request.token, "s3cr3t");
}

#[test]
fn baseline_is_the_fetched_quantity() {
    assert_eq!(baseline_of(Fetched::Quantity(48)), 48);
    assert_eq!(baseline_of(Fetched::Quantity(0)), 0);
    assert_eq!(baseline_of(Fetched::Quantity(-3)), -3);
}

#[test]
fn baseline_is_zero_after_a_failure() {
    assert_eq!(baseline_of(Fetched::Unreadable), 0);
    assert_eq!(baseline_of(Fetched::Unreachable), 0);
}

#[test]
fn fetched_48_then_ticks_report_50_and_100() {
    let api = account();
    let mut tally = Tally::new(baseline_of(Fetched::Quantity(48)));
    let mut reports = Vec::new();
    for _ in 0..2 {
        if let Some(count) = tally.tick() {
            reports.push(api.post_pixel_on("typing", "20240131", count));
        }
    }
    assert_eq!(tally.count(), 50);
    assert_eq!(reports, vec![api.post_pixel_on("typing", "20240131", 50)]);
    for _ in 0..49 {
        assert_eq!(tally.tick(), None);
    }
    let last = tally.tick();
    assert_eq!(last, Some(100));
    assert_eq!(api.post_pixel_on("typing", "20240131", 100).quantity, 100);
}

#[test]
fn failed_fetch_starts_the_tally_at_zero() {
    let mut tally = Tally::new(baseline_of(Fetched::Unreachable));
    assert_eq!(tally.count(), 0);
    for _ in 0..49 {
        assert_eq!(tally.tick(), None);
    }
    assert_eq!(tally.tick(), Some(50));
}
