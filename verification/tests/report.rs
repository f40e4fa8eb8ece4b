use scripture_retention_algorithm::report::decimal_text;
use scripture_retention_algorithm::{
    ScheduledVerses, Verse, VerseEntry, VersesForADay, VersesForAMonth, VersesForAWeek,
};

#[test]
fn decimal_text_of_numbers() {
    assert_eq!(decimal_text(0), "0");
    assert_eq!(decimal_text(7), "7");
    assert_eq!(decimal_text(10), "10");
    assert_eq!(decimal_text(75), "75");
    assert_eq!(decimal_text(1234567890), "1234567890");
    assert_eq!(decimal_text(usize::MAX), usize::MAX.to_string());
    for value in 0..2000usize {
        assert_eq!(decimal_text(value), value.to_string());
    }
}

#[test]
fn text_of_an_empty_day() {
    let day = VersesForADay::default();
    assert_eq!(day.data(), "### Daily: \n- \n\n### Weekly: \n- \n\n### Monthly: \n- ");
    assert_eq!(day.stats(), "D: 0 | W: 0 | M: 0\n");
}

#[test]
fn text_of_a_day() {
    let mut verses = vec![Verse::new(1, "John 1:1"), Verse::new(2, "John 1:2")];
    verses.push(Verse::new(8, "Psalm 23:1"));
    for i in 0..8 {
        verses.push(Verse::new(100, &format!("Romans 8:{}", i + 1)));
    }
    let week = VersesForAWeek::new(&verses, 0);
    let sunday = &week.days()[0];
    assert_eq!(
        sunday.data(),
        "### Daily: \n- John 1:1\n- John 1:2\n\n\
         ### Weekly: \n- Psalm 23:1\n\n\
         ### Monthly: \n- Romans 8:1"
    );
    assert_eq!(sunday.stats(), "D: 2 | W: 1 | M: 1\nRomans 8:1");
    let tuesday = &week.days()[2];
    assert_eq!(
        tuesday.data(),
        "### Daily: \n- John 1:1\n- John 1:2\n\n### Weekly: \n- \n\n### Monthly: \n- "
    );
    assert_eq!(tuesday.stats(), "D: 2 | W: 0 | M: 0\n");
}

#[test]
fn monthly_verses_of_a_day_are_joined_in_the_counts() {
    let verses: Vec<Verse> = (0..60).map(|i| Verse::new(50, &format!("v{}", i))).collect();
    let week = VersesForAWeek::new(&verses, 1);
    // Pool of fifteen: 3, 2, 2, 2, 2, 2, 2.
    assert_eq!(week.days()[0].stats(), "D: 0 | W: 0 | M: 3\nv15 + v16 + v17");
    assert_eq!(week.days()[6].stats(), "D: 0 | W: 0 | M: 2\nv28 + v29");
    assert_eq!(
        week.stats(),
        "D: 0 | W: 0 | M: 3\nv15 + v16 + v17\n\
         D: 0 | W: 0 | M: 2\nv18 + v19\n\
         D: 0 | W: 0 | M: 2\nv20 + v21\n\
         D: 0 | W: 0 | M: 2\nv22 + v23\n\
         D: 0 | W: 0 | M: 2\nv24 + v25\n\
         D: 0 | W: 0 | M: 2\nv26 + v27\n\
         D: 0 | W: 0 | M: 2\nv28 + v29"
    );
}

#[test]
fn counts_of_a_cycle() {
    let verses = vec![Verse::new(3, "a"), Verse::new(6, "b")];
    let month = VersesForAMonth::new(&verses);
    let plain = "D: 2 | W: 0 | M: 0\n";
    let week0 = [plain; 7].join("\n");
    // From week 1 on, b is weekly as well, on the first day.
    let week1 = format!("D: 2 | W: 1 | M: 0\n\n{}", [plain; 6].join("\n"));
    let expected = [week0, week1.clone(), week1.clone(), week1].join("\n---\n");
    assert_eq!(month.stats(), expected);
}

#[test]
fn counts_of_an_empty_cycle() {
    let month = VersesForAMonth::new(&Vec::new());
    let week = ["D: 0 | W: 0 | M: 0\n"; 7].join("\n");
    let expected = [week.clone(), week.clone(), week.clone(), week].join("\n---\n");
    assert_eq!(month.stats(), expected);
}

#[test]
fn text_of_today() {
    let entries = vec![
        VerseEntry::new("2025-07-06", "A").unwrap(),
        VerseEntry::new("2025-07-13", "B").unwrap(),
    ];
    let scheduled = ScheduledVerses::new("2025-07-06", &entries).unwrap();
    assert_eq!(
        scheduled.for_today().data(),
        "### Daily: \n- A\n\n### Weekly: \n- \n\n### Monthly: \n- "
    );
}
