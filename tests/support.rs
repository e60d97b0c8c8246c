use farm_gatherer::csv::{farm_row, header_row, write_to_csv};
use farm_gatherer::data::FarmData;
use farm_gatherer::selectors::{decimal_text, page_selector};
use farm_gatherer::sync::{PanelWait, Probe, Target, WaitStatus, POLL_INTERVAL_MS};

#[test]
fn visible_wait_times_out_within_one_interval() {
    for timeout in [0u32, 150, 10000] {
        let mut w = PanelWait::new(Target::Visible, timeout);
        let mut status = WaitStatus::Pending;
        let mut queries = 0;
        while status == WaitStatus::Pending {
            status = w.observe(Probe::Hidden);
            queries += 1;
            assert!(queries < 1000);
        }
        assert_eq!(status, WaitStatus::TimedOut);
        assert!(w.elapsed_ms >= timeout as u64);
        assert!(w.elapsed_ms < timeout as u64 + POLL_INTERVAL_MS);
    }
}

#[test]
fn visible_wait_reached_when_shown() {
    let mut w = PanelWait::new(Target::Visible, 10000);
    assert_eq!(w.observe(Probe::Missing), WaitStatus::Pending);
    assert_eq!(w.observe(Probe::Shown), WaitStatus::Reached);
    assert_eq!(w.elapsed_ms, 100);
}

#[test]
fn gone_wait_ends_at_once_on_failed_query() {
    let mut w = PanelWait::new(Target::Gone, 10000);
    assert_eq!(w.observe(Probe::Failed), WaitStatus::Reached);
    assert_eq!(w.elapsed_ms, 0);
    let mut h = PanelWait::new(Target::Gone, 10000);
    assert_eq!(h.observe(Probe::Shown), WaitStatus::Pending);
    assert_eq!(h.observe(Probe::Hidden), WaitStatus::Reached);
}

#[test]
fn page_selectors() {
    assert_eq!(page_selector(2), "[aria-label='Page 2']");
    assert_eq!(page_selector(10), "[aria-label='Page 10']");
    assert_eq!(decimal_text(0), "0");
    assert_eq!(decimal_text(4294967295), "4294967295");
}

#[test]
fn row_columns() {
    let farm = FarmData::new("Sunny".to_string(), Some("555".to_string()), Some("1 Road".to_string()));
    assert_eq!(
        farm_row(&farm),
        vec!["B2B", "Sunny", "1 Road", "", "", "", "", "555", "", "", ""]
    );
    let bare = FarmData::new("Bare".to_string(), None, None);
    assert_eq!(farm_row(&bare), vec!["B2B", "Bare", "", "", "", "", "", "", "", "", ""]);
    assert_eq!(header_row().len(), 11);
}

#[test]
fn export_has_header_and_quotes_fields() {
    let farms = vec![
        FarmData::new("Smith, Jones & Co".to_string(), None, Some("5 \"Old\" Lane".to_string())),
    ];
    let mut out = b"keep".to_vec();
    write_to_csv(&farms, &mut out);
    let text = String::from_utf8(out).unwrap();
    assert_eq!(
        text,
        "keepType,Farms Name,Address,Point of Contact,Name,Position,Email,Phone Number,Contacted,Interview Setup,Notes from meeting\n\
         B2B,\"Smith, Jones & Co\",\"5 \"\"Old\"\" Lane\",,,,,,,,\n"
    );
}

#[test]
fn export_of_no_farms_is_header_only() {
    let mut out = Vec::new();
    write_to_csv(&Vec::new(), &mut out);
    assert_eq!(String::from_utf8(out).unwrap().lines().count(), 1);
}

#[test]
fn export_of_one_farm_with_phone() {
    let farms = vec![FarmData::new("Sunny Farm".to_string(), Some("555-0100".to_string()), None)];
    let mut out = Vec::new();
    write_to_csv(&farms, &mut out);
    let text = String::from_utf8(out).unwrap();
    let lines: Vec<&str> = text.lines().collect();
    assert_eq!(lines.len(), 2);
    assert_eq!(lines[1], "B2B,Sunny Farm,,,,,,555-0100,,,");
}
