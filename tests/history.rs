use smokeping::history::{
    flux_query, parse_is_lost, rows_to_points, translate_result, InfluxProbeDataPoint,
    ProbeDataPoint, ProbeDataQuery, StorageUnavailable,
};

fn row(time: &str, rtt: f64, lost: &str) -> InfluxProbeDataPoint<f64> {
    InfluxProbeDataPoint {
        target_id: "7".to_string(),
        is_lost: lost.to_string(),
        rtt_ms: rtt,
        _time: time.to_string(),
    }
}

#[test]
fn rows_translate_in_order() {
    let rows = vec![row("t1", 12.5, "false"), row("t2", 0.0, "true")];
    let out = translate_result::<f64, String>(&Ok(rows)).unwrap();
    assert_eq!(
        out,
        vec![
            ProbeDataPoint { time: "t1".to_string(), rtt_ms: 12.5, is_lost: false },
            ProbeDataPoint { time: "t2".to_string(), rtt_ms: 0.0, is_lost: true },
        ]
    );
}

#[test]
fn query_failure_is_unavailable() {
    let r = translate_result::<f64, String>(&Err("boom".to_string()));
    assert_eq!(r, Err(StorageUnavailable {}));
    let empty = translate_result::<f64, String>(&Ok(vec![]));
    assert_eq!(empty, Ok(vec![]));
}

#[test]
fn malformed_flag_reads_not_lost() {
    assert!(!parse_is_lost("yes"));
    assert!(!parse_is_lost("TRUE"));
    assert!(!parse_is_lost(""));
    assert!(!parse_is_lost("false"));
    assert!(parse_is_lost("true"));
    let out = rows_to_points(&vec![row("t3", 3.0, "maybe")]);
    assert_eq!(out.len(), 1);
    assert!(!out[0].is_lost);
    assert_eq!(out[0].rtt_ms, 3.0);
}

#[test]
fn flux_query_text() {
    let q = ProbeDataQuery { start_time: "-1h".to_string(), end_time: "now()".to_string() };
    let text = flux_query("smokeping", 7, &q);
    let expected = "from(bucket: \"smokeping\")
        |> range(start: -1h, stop: now())
        |> filter(fn: (r) => r._measurement == \"probe_data\")
        |> filter(fn: (r) => r.target_id == \"7\")
        |> filter(fn: (r) => r._field == \"rtt_ms\")
        |> keep(columns: [\"_time\", \"_value\", \"target_id\", \"is_lost\"])
        |> rename(columns: {\"_value\": \"rtt_ms\"})";
    assert_eq!(text, expected);
}
