//! Tests of the streak/rep engine against a fixed calendar.

use vault_tasks::dates::WeekDates;
use vault_tasks::task::{CreateTaskError, Task, TaskFC};
use vault_tasks::taskproto::TaskProto;

/// Nine consecutive calendar dates, most recent first: entry `d` stands for
/// the date `d` days before the reference day.
const DATES: [&str; 9] = [
    "2024-03-15",
    "2024-03-14",
    "2024-03-13",
    "2024-03-12",
    "2024-03-11",
    "2024-03-10",
    "2024-03-09",
    "2024-03-08",
    "2024-03-07",
];

fn week() -> WeekDates {
    WeekDates::new(DATES.iter().map(|d| d.to_string()).collect()).unwrap()
}

fn get_date_x_days_ago(x: usize) -> String {
    DATES[x].to_string()
}

#[test]
fn test_compute_reps_streak() {
    let mut t0 = Task::default();
    t0.streak = Some(6);
    t0.rep_number = Some(1);
    t0.sk = get_date_x_days_ago(0);

    let mut t1_1 = Task::default();
    t1_1.streak = Some(5);
    t1_1.rep_number = Some(1);
    t1_1.sk = get_date_x_days_ago(2);

    let mut t1_2 = Task::default();
    t1_2.streak = Some(6);
    t1_2.rep_number = Some(2);
    t1_2.sk = get_date_x_days_ago(2);

    let mut t1_3 = Task::default();
    t1_3.streak = Some(6);
    t1_3.rep_number = Some(3);
    t1_3.sk = get_date_x_days_ago(2);

    let mut t2_1 = Task::default();
    t2_1.streak = Some(4);
    t2_1.rep_number = Some(1);
    t2_1.sk = get_date_x_days_ago(3);

    let mut t2_2 = Task::default();
    t2_2.streak = Some(5);
    t2_2.rep_number = Some(2);
    t2_2.sk = get_date_x_days_ago(3);

    let mut t3_1 = Task::default();
    t3_1.streak = Some(3);
    t3_1.rep_number = Some(1);
    t3_1.sk = get_date_x_days_ago(4);

    let mut t3_2 = Task::default();
    t3_2.streak = Some(4);
    t3_2.rep_number = Some(2);
    t3_2.sk = get_date_x_days_ago(4);

    let v = vec![t0, t1_1, t1_2, t1_3, t2_1, t2_2, t3_1, t3_2];

    let result = Task::compute_reps_streak(2, 3, &v, &week());
    assert_eq!(result.streak, 7);
    assert_eq!(result.rep_number, 2);
}

#[test]
fn test_get_streaks_with_reps_week_summary() {
    let mut t1_1 = Task::default();
    t1_1.streak = Some(5);
    t1_1.rep_number = Some(1);
    t1_1.sk = get_date_x_days_ago(2);

    let mut t1_2 = Task::default();
    t1_2.streak = Some(6);
    t1_2.rep_number = Some(2);
    t1_2.sk = get_date_x_days_ago(2);

    let mut t1_3 = Task::default();
    t1_3.streak = Some(6);
    t1_3.rep_number = Some(3);
    t1_3.sk = get_date_x_days_ago(2);

    let mut t2_1 = Task::default();
    t2_1.streak = Some(4);
    t2_1.rep_number = Some(1);
    t2_1.sk = get_date_x_days_ago(3);

    let mut t2_2 = Task::default();
    t2_2.streak = Some(5);
    t2_2.rep_number = Some(2);
    t2_2.sk = get_date_x_days_ago(3);

    let mut t3_1 = Task::default();
    t3_1.streak = Some(4);
    t3_1.rep_number = Some(1);
    t3_1.sk = get_date_x_days_ago(4);

    let v = vec![t1_1, t1_2, t1_3, t2_1, t2_2, t3_1];

    let result = Task::get_streaks_with_reps_week_summary(2, &v, &week());
    assert_eq!(result.len(), 2);
    assert_eq!(result[0].streak, 6);
    assert_eq!(result[1].streak, 5);
}

#[test]
fn test_compute_non_reps_streak() {
    let mut t1 = Task::default();
    t1.streak = Some(6);
    t1.sk = get_date_x_days_ago(2);

    let mut t2 = Task::default();
    t2.streak = Some(5);
    t2.sk = get_date_x_days_ago(3);

    let mut t3 = Task::default();
    t3.streak = Some(4);
    t3.sk = get_date_x_days_ago(4);

    let v = vec![t1, t2, t3];

    assert_eq!(Task::compute_non_reps_streak(4, &v, &week()), 7);
    assert_eq!(Task::compute_non_reps_streak(3, &v, &week()), 1);
    assert_eq!(Task::compute_non_reps_streak(1, &v, &week()), 1);

    let v2 = vec![
        Task {
            streak: Some(6),
            sk: get_date_x_days_ago(1),
            ..Default::default()
        },
        Task {
            streak: Some(5),
            sk: get_date_x_days_ago(2),
            ..Default::default()
        },
        Task {
            streak: Some(4),
            sk: get_date_x_days_ago(3),
            ..Default::default()
        },
        Task {
            streak: Some(3),
            sk: get_date_x_days_ago(4),
            ..Default::default()
        },
        Task {
            streak: Some(2),
            sk: get_date_x_days_ago(5),
            ..Default::default()
        },
        Task {
            streak: Some(1),
            sk: get_date_x_days_ago(6),
            ..Default::default()
        },
    ];

    assert_eq!(Task::compute_non_reps_streak(4, &v2, &week()), 7);
    assert_eq!(Task::compute_non_reps_streak(3, &v2, &week()), 7);
    assert_eq!(Task::compute_non_reps_streak(2, &v2, &week()), 7);
    assert_eq!(Task::compute_non_reps_streak(1, &v2, &week()), 7);
    assert_eq!(Task::compute_non_reps_streak(0, &v2, &week()), 7);

    let v3 = vec![
        Task {
            streak: Some(3),
            sk: get_date_x_days_ago(3),
            ..Default::default()
        },
        Task {
            streak: Some(2),
            sk: get_date_x_days_ago(4),
            ..Default::default()
        },
        Task {
            streak: Some(1),
            sk: get_date_x_days_ago(5),
            ..Default::default()
        },
    ];

    assert_eq!(Task::compute_non_reps_streak(3, &v3, &week()), 4);
    assert_eq!(Task::compute_non_reps_streak(2, &v3, &week()), 4);
    assert_eq!(Task::compute_non_reps_streak(1, &v3, &week()), 1);
    assert_eq!(Task::compute_non_reps_streak(0, &v3, &week()), 1);
}

#[test]
fn model_test_compute_non_reps_streak() {
    let mut t1 = Task::default();
    t1.streak = Some(6);
    t1.sk = get_date_x_days_ago(2);

    let mut t2 = Task::default();
    t2.streak = Some(5);
    t2.sk = get_date_x_days_ago(3);

    let mut t3 = Task::default();
    t3.streak = Some(4);
    t3.sk = get_date_x_days_ago(4);

    let v = vec![t1, t2, t3];
    println!("{:#?}", v);

    assert_eq!(Task::compute_non_reps_streak(4, &v, &week()), 7);
    assert_eq!(Task::compute_non_reps_streak(3, &v, &week()), 1);
    assert_eq!(Task::compute_non_reps_streak(1, &v, &week()), 1);
}

#[test]
fn non_reps_streak_on_empty_window_is_one_for_any_tolerance() {
    for tolerance in 0..=7u8 {
        assert_eq!(Task::compute_non_reps_streak(tolerance, &Vec::new(), &week()), 1);
    }
}

#[test]
fn non_reps_streak_is_deterministic() {
    let build = || {
        vec![
            Task {
                streak: Some(6),
                sk: get_date_x_days_ago(2),
                ..Default::default()
            },
            Task {
                streak: Some(5),
                sk: get_date_x_days_ago(3),
                ..Default::default()
            },
        ]
    };
    for tolerance in 0..=7u8 {
        let first = Task::compute_non_reps_streak(tolerance, &build(), &week());
        let second = Task::compute_non_reps_streak(tolerance, &build(), &week());
        assert_eq!(first, second);
    }
}

#[test]
fn sparse_history_guard_resets_streak_to_one() {
    // One record yesterday carrying a long streak: with tolerance 2 the
    // lookback would yield 41, but a window of one record cannot support a
    // streak above 7 - 2 = 5.
    let v = vec![Task {
        streak: Some(40),
        sk: get_date_x_days_ago(1),
        ..Default::default()
    }];
    assert_eq!(Task::compute_non_reps_streak(2, &v, &week()), 1);
}

#[test]
fn week_summary_has_a_day_iff_its_count_reaches_the_minimum() {
    // Offset 1 holds two records, offset 2 one, offset 3 three.  With a
    // daily minimum of 2, exactly offsets 1 and 3 qualify, most recent first.
    let v = vec![
        Task {
            streak: Some(9),
            sk: get_date_x_days_ago(1),
            ..Default::default()
        },
        Task {
            streak: Some(8),
            sk: get_date_x_days_ago(1),
            ..Default::default()
        },
        Task {
            streak: Some(7),
            sk: get_date_x_days_ago(2),
            ..Default::default()
        },
        Task {
            streak: Some(4),
            sk: get_date_x_days_ago(3),
            ..Default::default()
        },
        Task {
            streak: Some(6),
            sk: get_date_x_days_ago(3),
            ..Default::default()
        },
        Task {
            streak: Some(5),
            sk: get_date_x_days_ago(3),
            ..Default::default()
        },
    ];
    let summary = Task::get_streaks_with_reps_week_summary(2, &v, &week());
    assert_eq!(summary.len(), 2);
    assert_eq!(summary[0].date, DATES[1]);
    assert_eq!(summary[0].streak, 9);
    assert_eq!(summary[1].date, DATES[3]);
    assert_eq!(summary[1].streak, 6);
}

#[test]
fn week_summary_excludes_today() {
    let v = vec![
        Task {
            streak: Some(3),
            sk: get_date_x_days_ago(0),
            ..Default::default()
        },
        Task {
            streak: Some(3),
            sk: get_date_x_days_ago(0),
            ..Default::default()
        },
    ];
    let summary = Task::get_streaks_with_reps_week_summary(1, &v, &week());
    assert!(summary.is_empty());
}

fn reps_proto() -> TaskProto {
    TaskProto {
        pk: "TaskProto::Active".to_string(),
        sk: "Task::Workout".to_string(),
        readable_name: "Workout".to_string(),
        has_description: false,
        has_streak: true,
        has_reps: true,
        daily_reps_minimum: Some(2),
        weekly_streak_tolerance: Some(3),
        is_timed: false,
        priority: 0,
    }
}

fn non_reps_proto() -> TaskProto {
    TaskProto {
        pk: "TaskProto::Active".to_string(),
        sk: "Task::Meditate".to_string(),
        readable_name: "Meditate".to_string(),
        has_description: true,
        has_streak: true,
        has_reps: false,
        daily_reps_minimum: None,
        weekly_streak_tolerance: Some(2),
        is_timed: true,
        priority: 0,
    }
}

fn completion_request(pk: &str) -> TaskFC {
    TaskFC {
        pk: pk.to_string(),
        description: Some("ran five miles".to_string()),
        total_time: Some("00:30:00".to_string()),
    }
}

#[test]
fn create_completion_for_repeatable_habit() {
    // Today one record; two days ago three; three days ago two; four days
    // ago two.  Minimum 2, tolerance 3: the day summary's most recent entry
    // (two days ago) carries streak 6, today's second rep reaches the
    // minimum, so the new record gets streak 7 and rep number 2.
    let records = vec![
        Task {
            streak: Some(6),
            rep_number: Some(1),
            sk: get_date_x_days_ago(0),
            ..Default::default()
        },
        Task {
            streak: Some(5),
            rep_number: Some(1),
            sk: get_date_x_days_ago(2),
            ..Default::default()
        },
        Task {
            streak: Some(6),
            rep_number: Some(2),
            sk: get_date_x_days_ago(2),
            ..Default::default()
        },
        Task {
            streak: Some(6),
            rep_number: Some(3),
            sk: get_date_x_days_ago(2),
            ..Default::default()
        },
        Task {
            streak: Some(4),
            rep_number: Some(1),
            sk: get_date_x_days_ago(3),
            ..Default::default()
        },
        Task {
            streak: Some(5),
            rep_number: Some(2),
            sk: get_date_x_days_ago(3),
            ..Default::default()
        },
        Task {
            streak: Some(3),
            rep_number: Some(1),
            sk: get_date_x_days_ago(4),
            ..Default::default()
        },
        Task {
            streak: Some(4),
            rep_number: Some(2),
            sk: get_date_x_days_ago(4),
            ..Default::default()
        },
    ];
    let proto = reps_proto();
    let now = "2024-03-15T10:30:00+01:00".to_string();
    let created = Task::create_completion(
        Some(&proto),
        &completion_request("Task::Workout"),
        &records,
        &week(),
        now.clone(),
    )
    .unwrap();
    assert_eq!(created.pk, "Task::Workout");
    assert_eq!(created.sk, now);
    assert_eq!(created.readable_name, "Workout");
    assert_eq!(created.streak, Some(7));
    assert_eq!(created.rep_number, Some(2));
    // The definition tracks neither description nor duration.
    assert_eq!(created.description, None);
    assert_eq!(created.total_time, None);
}

#[test]
fn create_completion_without_definition_is_refused() {
    let result = Task::create_completion(
        None,
        &completion_request("Task::Unknown"),
        &Vec::new(),
        &week(),
        "2024-03-15T10:30:00+01:00".to_string(),
    );
    assert!(matches!(result, Err(CreateTaskError::ProtoNotFound)));
}

#[test]
fn second_same_day_completion_of_non_repeatable_habit_is_refused() {
    let records = vec![Task {
        streak: Some(4),
        sk: "2024-03-15T07:00:00+01:00".to_string(),
        ..Default::default()
    }];
    let result = Task::create_completion(
        Some(&non_reps_proto()),
        &completion_request("Task::Meditate"),
        &records,
        &week(),
        "2024-03-15T10:30:00+01:00".to_string(),
    );
    assert!(matches!(result, Err(CreateTaskError::TaskForTodayExists)));
}

#[test]
fn create_completion_for_non_repeatable_habit() {
    let records = vec![Task {
        streak: Some(4),
        sk: "2024-03-14T07:00:00+01:00".to_string(),
        ..Default::default()
    }];
    let proto = non_reps_proto();
    let created = Task::create_completion(
        Some(&proto),
        &completion_request("Task::Meditate"),
        &records,
        &week(),
        "2024-03-15T10:30:00+01:00".to_string(),
    )
    .unwrap();
    // Yesterday's record continues the streak; the definition tracks both a
    // description and a duration.
    assert_eq!(created.streak, Some(5));
    assert_eq!(created.rep_number, None);
    assert_eq!(created.description, Some("ran five miles".to_string()));
    assert_eq!(created.total_time, Some("00:30:00".to_string()));
}

#[test]
fn create_completion_without_streak_tracking_copies_nothing_extra() {
    let proto = TaskProto {
        pk: "TaskProto::Active".to_string(),
        sk: "Task::Stretch".to_string(),
        readable_name: "Stretch".to_string(),
        has_description: false,
        has_streak: false,
        has_reps: false,
        daily_reps_minimum: None,
        weekly_streak_tolerance: None,
        is_timed: false,
        priority: 0,
    };
    let created = Task::create_completion(
        Some(&proto),
        &completion_request("Task::Stretch"),
        &Vec::new(),
        &week(),
        "2024-03-15T10:30:00+01:00".to_string(),
    )
    .unwrap();
    assert_eq!(created.streak, None);
    assert_eq!(created.rep_number, None);
    assert_eq!(created.description, None);
    assert_eq!(created.total_time, None);
}

#[test]
fn rep_number_reaches_the_largest_supported_count() {
    // 254 records already logged today: the new completion is rep 255.
    let mut records = Vec::new();
    for i in 0..254u32 {
        records.push(Task {
            streak: Some(i + 1),
            rep_number: Some(1),
            sk: get_date_x_days_ago(0),
            ..Default::default()
        });
    }
    let result = Task::compute_reps_streak(2, 3, &records, &week());
    assert_eq!(result.rep_number, 255);
    // No past day qualifies, today's count reaches the minimum: streak 1.
    assert_eq!(result.streak, 1);
}

#[test]
fn reps_streak_with_zero_tolerance_scans_no_past_day() {
    let records = vec![Task {
        streak: Some(5),
        rep_number: Some(1),
        sk: get_date_x_days_ago(1),
        ..Default::default()
    }];
    let result = Task::compute_reps_streak(1, 0, &records, &week());
    // Yesterday qualifies but lies outside a zero-day tolerance window.
    assert_eq!(result.streak, 1);
    assert_eq!(result.rep_number, 1);
}

#[test]
fn non_reps_lookback_reaches_eight_days_with_full_tolerance() {
    let records = vec![Task {
        streak: Some(2),
        sk: get_date_x_days_ago(8),
        ..Default::default()
    }];
    assert_eq!(Task::compute_non_reps_streak(7, &records, &week()), 3);
    // With a smaller tolerance the same record lies out of reach.
    assert_eq!(Task::compute_non_reps_streak(6, &records, &week()), 1);
}

#[test]
fn week_dates_require_nine_entries() {
    assert!(WeekDates::new(vec!["2024-03-15".to_string()]).is_none());
    assert!(WeekDates::new(DATES.iter().map(|d| d.to_string()).collect()).is_some());
}

#[test]
fn current_week_reads_nine_distinct_days() {
    let week = vault_tasks::dates::current_week();
    let mut seen: Vec<String> = Vec::new();
    for offset in 0..9 {
        let date = week.date(offset).clone();
        assert!(!seen.contains(&date));
        seen.push(date);
    }
}
