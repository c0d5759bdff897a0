//! The results of a test and the CSV file.

use tcpkali2::command::{validated_config, Args, Config};
use tcpkali2::csv_export::{
    build_row, epoch_to_datetime, export_csv, header_line, is_leap, timestamp_text, Export,
    ExistingFile, SecondsTexts,
};
use tcpkali2::report::{Figures, RateTexts, Share};
use tcpkali2::stats::Stats;
use tcpkali2::text::PlainText;
use tcpkali2::time::Duration;

fn measured() -> Stats {
    let mut stats = Stats::new(0);
    stats.end_warmup(0);
    stats.total_connections = 4;
    stats.success_connections = 3;
    stats.connection_errors = 1;
    stats.total_requests = 200;
    stats.total_bytes_sent = 1_250_000;
    stats.total_bytes_received = 2_499_999;
    for latency in [100u64, 200, 300] {
        assert_eq!(stats.record_latency(latency, 0), None);
    }
    stats
}

fn plain(text: &str) -> PlainText {
    PlainText::new(text.to_string()).unwrap()
}

fn rates() -> RateTexts {
    RateTexts {
        duration: plain("15.00"),
        success_rate: plain("75.0"),
        error_rate: plain("0.50"),
        requests_rate: plain("13.33"),
        throughput: plain("3.75"),
        bandwidth: plain("0.25"),
    }
}

fn config() -> Config {
    let args = Args {
        duration: Duration::from_secs(15),
        warmup: Duration::from_secs(5),
        message_size: 128,
        quiet: false,
        nagle: true,
        pipeline: false,
        connections: 4,
        connect_rate: 100,
        connect_timeout: Duration::from_secs(1),
        channel_lifetime: None,
        unescape: false,
        first_message: None,
        first_message_file: None,
        message: None,
        message_file: None,
        message_rate: None,
        websocket: false,
    };
    validated_config(&args, None, None).unwrap()
}

fn seconds() -> SecondsTexts {
    SecondsTexts {
        connect_timeout: plain("1.00"),
        channel_lifetime: plain("9.00"),
        duration: plain("15.00"),
        warmup: plain("5.00"),
    }
}

#[test]
fn figures_of_counters() {
    let figures = Figures::new(&measured(), Duration::from_secs(15));
    assert_eq!(figures.total_connections, 4);
    assert_eq!(figures.total_requests, 200);
    assert_eq!(figures.total_bytes, 3_749_999);
    // 10 and 19.999992 megabits in 15 seconds.
    assert_eq!(figures.traffic_up, 67);
    assert_eq!(figures.traffic_down, 133);
    assert_eq!(figures.success_rate, Some(Share { part: 3, whole: 4 }));
    assert_eq!(figures.error_rate, Some(Share { part: 1, whole: 200 }));
    assert!(figures.has_length);
    assert_eq!(figures.latency_mean.as_str(), "200.0");
    assert_eq!(figures.latency_min, 100);
    assert_eq!(figures.latency_p50, 200);
    assert_eq!(figures.latency_p90, 300);
    assert_eq!(figures.latency_p95, 300);
    assert_eq!(figures.latency_p99, 300);
    assert_eq!(figures.latency_max, 300);
}

#[test]
fn figures_of_nothing() {
    let figures = Figures::new(&Stats::new(0), Duration::from_secs(0));
    assert_eq!(figures.success_rate, None);
    assert_eq!(figures.error_rate, None);
    assert!(!figures.has_length);
    assert_eq!(figures.latency_p50, 0);
    assert_eq!(figures.traffic_up, 0);
    assert_eq!(Figures::new(&measured(), Duration::from_secs(0)).traffic_down, 0);
}

#[test]
fn traffic_is_a_rate() {
    let mut stats = measured();
    stats.total_bytes_received = 1_000_000;
    assert_eq!(Figures::new(&stats, Duration::from_secs(1)).traffic_down, 800);
    assert_eq!(Figures::new(&stats, Duration::from_secs(10)).traffic_down, 80);
    assert_eq!(Figures::new(&stats, Duration::from_secs(20)).traffic_down, 40);
}

#[test]
fn figures_that_do_not_fit() {
    let second = Duration::from_secs(1);
    let mut stats = measured();
    assert!(Figures::checked(&stats, second).is_some());
    stats.total_bytes_sent = u64::MAX - stats.total_bytes_received;
    assert!(Figures::checked(&stats, second).is_some());
    stats.total_bytes_sent += 1;
    assert!(Figures::checked(&stats, second).is_none());
}

#[test]
fn the_final_results() {
    let figures = Figures::new(&measured(), Duration::from_secs(15));
    let lines = Stats::print_final_stats(&figures, &rates(), true);
    let expected = vec![
        "\n=== Final Results ===",
        "Duration:          15.00s",
        "Total Connections: 4",
        "Success Rate:      75.0%",
        "Total Requests:    200",
        "Error Rate:        0.50%",
        "Requests Rate:     13.33 req/s",
        "Throughput:        3.75 MB",
        "Bandwidth:         0.25 MB/s",
        "Traffic:           1.33\u{2193}, 0.67\u{2191} Mbps",
        "Latency Distribution (us):",
        "  Avg:    200.0  Min:      100",
        "  P50:      200  P90:      300",
        "  P95:      300  P99:      300",
        "  Max:      300",
    ];
    assert_eq!(lines, expected);
    assert!(Stats::print_final_stats(&figures, &rates(), false).is_empty());
}

#[test]
fn dates() {
    assert_eq!(epoch_to_datetime(0), (1970, 1, 1, 0, 0, 0));
    assert_eq!(epoch_to_datetime(951_782_399), (2000, 2, 28, 23, 59, 59));
    assert_eq!(epoch_to_datetime(951_782_400), (2000, 2, 29, 0, 0, 0));
    assert_eq!(epoch_to_datetime(1_709_210_096), (2024, 2, 29, 12, 34, 56));
    assert_eq!(epoch_to_datetime(1_735_689_599), (2024, 12, 31, 23, 59, 59));
    assert_eq!(epoch_to_datetime(4_107_542_400), (2100, 3, 1, 0, 0, 0));
    assert_eq!(timestamp_text(epoch_to_datetime(1_709_210_096)), "2024-02-29T12:34:56Z");
    assert_eq!(timestamp_text((12_345, 1, 2, 3, 4, 5)), "12345-01-02T03:04:05Z");
}

#[test]
fn later_seconds_are_later_dates() {
    let mut last = epoch_to_datetime(0);
    for day in 1..1000u64 {
        let next = epoch_to_datetime(day * 86_400 + day);
        assert!(next > last);
        last = next;
    }
}

#[test]
fn leap_years() {
    assert!(is_leap(2024));
    assert!(is_leap(2000));
    assert!(!is_leap(2100));
    assert!(!is_leap(2023));
}

#[test]
fn the_header() {
    assert_eq!(
        header_line(),
        "timestamp,target,connections,connect_rate,connect_timeout_s,channel_lifetime_s,\
         duration_s,warmup_s,workers,nagle,pipeline,websocket,message_size,message_rate,\
         total_connections,success_rate_pct,total_requests,error_rate_pct,requests_per_sec,\
         throughput_mb,bandwidth_mb_s,traffic_down_mbps,traffic_up_mbps,latency_avg_us,\
         latency_min_us,latency_p50_us,latency_p90_us,latency_p95_us,latency_p99_us,\
         latency_max_us"
    );
}

#[test]
fn a_row() {
    let figures = Figures::new(&measured(), Duration::from_secs(15));
    let mut c = config();
    let row = build_row(&c, &figures, &rates(), &seconds(), "h:1", 8, 1_709_210_096);
    assert_eq!(
        row,
        "2024-02-29T12:34:56Z,h:1,4,100,1.00,-1,15.00,5.00,8,true,false,false,128,-1,4,75.0,\
         200,0.50,13.33,3.75,0.25,1.33,0.67,200.0,100,200,300,300,300,300"
    );
    assert_eq!(row.split(',').count(), header_line().split(',').count());
    assert!(!row.contains('\n') && !row.contains('\r'));
    c.channel_lifetime = Some(Duration::from_secs(9));
    c.message_rate = Some(50);
    let row = build_row(&c, &figures, &rates(), &seconds(), "h:1", 8, 0);
    let cells: Vec<&str> = row.split(',').collect();
    assert_eq!(cells[0], "1970-01-01T00:00:00Z");
    assert_eq!(cells[5], "9.00");
    assert_eq!(cells[13], "50");
}

#[test]
fn a_row_of_nothing() {
    let figures = Figures::new(&Stats::new(0), Duration::from_secs(1));
    let row = build_row(&config(), &figures, &rates(), &seconds(), "h:1", 8, 0);
    let cells: Vec<&str> = row.split(',').collect();
    assert_eq!(cells[14], "0");
    assert_eq!(cells[21], "0");
    assert_eq!(cells[22], "0");
}

fn apply(file: &str, export: Export) -> String {
    match export {
        Export::Append(text) => format!("{}{}", file, text),
        Export::Overwrite(text) => text,
    }
}

#[test]
fn exported_rows_add_up() {
    let mut file = apply("", export_csv(&ExistingFile::Missing, "r1"));
    assert_eq!(file, format!("{}\nr1\n", header_line()));
    for row in ["r2", "r3"] {
        let first = file.lines().next().unwrap().to_string();
        file = apply(&file, export_csv(&ExistingFile::FirstLine(first), row));
    }
    assert_eq!(file, format!("{}\nr1\nr2\nr3\n", header_line()));
    assert_eq!(file.lines().count(), 4);
}

#[test]
fn a_file_with_other_columns_is_replaced() {
    let fresh = format!("{}\nrow\n", header_line());
    for existing in [
        ExistingFile::Missing,
        ExistingFile::Unreadable,
        ExistingFile::NotAppendable,
        ExistingFile::FirstLine(String::new()),
        ExistingFile::FirstLine("timestamp,target".to_string()),
        ExistingFile::FirstLine(format!("{},more", header_line())),
    ] {
        match export_csv(&existing, "row") {
            Export::Overwrite(text) => assert_eq!(text, fresh),
            Export::Append(_) => panic!(),
        }
    }
    let spaced = ExistingFile::FirstLine(format!(" {}\r", header_line()));
    match export_csv(&spaced, "row") {
        Export::Append(text) => assert_eq!(text, "row\n"),
        Export::Overwrite(_) => panic!(),
    }
}
