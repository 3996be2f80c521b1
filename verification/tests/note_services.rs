use lifetracker::entities::{BookExcerpt, Challenge, Diary, DiaryKey, Memo, MissionMemo, ReadingNote};
use lifetracker::error::CustomDbErr;
use lifetracker::ids::Id;
use lifetracker::services::book_excerpt_mutation::{BookExcerptMutation, NewBookExcerpt, UpdateBookExcerpt};
use lifetracker::services::book_excerpt_query::BookExcerptQuery;
use lifetracker::services::challenge_mutation::{ChallengeMutation, NewChallenge, UpdateChallenge};
use lifetracker::services::challenge_query::ChallengeQuery;
use lifetracker::services::diary_mutation::{names_key, DiaryMutation, NewDiary, UpdateDiary};
use lifetracker::services::diary_query::DiaryQuery;
use lifetracker::services::memo_mutation::{MemoMutation, NewMemo, UpdateMemo};
use lifetracker::services::memo_query::MemoQuery;
use lifetracker::services::mission_memo_mutation::{MissionMemoMutation, NewMissionMemo, UpdateMissionMemo};
use lifetracker::services::mission_memo_query::MissionMemoQuery;
use lifetracker::services::reading_note_mutation::{NewReadingNote, ReadingNoteMutation, UpdateReadingNote};
use lifetracker::services::reading_note_query::ReadingNoteQuery;
use lifetracker::time::Timestamp;

fn ts(secs: i64) -> Timestamp {
    Timestamp { secs, nanos: 0, offset: 0 }
}

fn version(id: Id) -> u128 {
    (id >> 76) & 0xf
}

const DAY: i32 = 739_000;

fn memo() -> Memo {
    Memo {
        id: 1,
        user_id: 2,
        title: "memo".to_string(),
        text: "text".to_string(),
        date: DAY,
        favorite: false,
        archived: false,
        created_at: ts(1_600_000_000),
        updated_at: ts(1_600_000_000),
    }
}

fn memo_form() -> UpdateMemo {
    UpdateMemo { id: 1, title: None, text: None, date: None, favorite: None, tag_ids: None, user_id: 2 }
}

fn challenge() -> Challenge {
    Challenge {
        id: 1,
        user_id: 2,
        title: "challenge".to_string(),
        text: "text".to_string(),
        date: DAY,
        archived: false,
        accomplished_at: None,
        created_at: ts(1_600_000_000),
        updated_at: ts(1_600_000_000),
    }
}

fn challenge_form() -> UpdateChallenge {
    UpdateChallenge { id: 1, title: None, text: None, date: None, tag_ids: None, user_id: 2 }
}

fn mission_memo() -> MissionMemo {
    MissionMemo {
        id: 1,
        user_id: 2,
        title: "mission_memo".to_string(),
        text: "text".to_string(),
        date: DAY,
        archived: false,
        accomplished_at: None,
        created_at: ts(1_600_000_000),
        updated_at: ts(1_600_000_000),
    }
}

fn mission_memo_form() -> UpdateMissionMemo {
    UpdateMissionMemo { id: 1, title: None, text: None, date: None, tag_ids: None, user_id: 2 }
}

fn book_excerpt() -> BookExcerpt {
    BookExcerpt {
        id: 1,
        user_id: 2,
        title: "book_excerpt".to_string(),
        page_number: 1,
        text: "book content".to_string(),
        date: DAY,
        created_at: ts(1_600_000_000),
        updated_at: ts(1_600_000_000),
    }
}

fn book_excerpt_form() -> UpdateBookExcerpt {
    UpdateBookExcerpt { id: 1, title: None, page_number: None, text: None, date: None, tag_ids: None, user_id: 2 }
}

fn reading_note() -> ReadingNote {
    ReadingNote {
        id: 1,
        user_id: 2,
        title: "reading_note".to_string(),
        page_number: 1,
        text: "content".to_string(),
        date: DAY,
        created_at: ts(1_600_000_000),
        updated_at: ts(1_600_000_000),
    }
}

fn reading_note_form() -> UpdateReadingNote {
    UpdateReadingNote { id: 1, title: None, page_number: None, text: None, date: None, tag_ids: None, user_id: 2 }
}

fn diary() -> Diary {
    Diary { id: 1, user_id: 2, text: Some("diary".to_string()), date: DAY, score: Some(4) }
}

fn diary_form(keys: Vec<DiaryKey>) -> UpdateDiary {
    UpdateDiary {
        id: 1,
        text: Some("updated".to_string()),
        date: DAY + 1,
        score: Some(2),
        tag_ids: vec![30],
        user_id: 2,
        update_keys: keys,
    }
}

#[test]
fn memo_mutation_create() {
    let (m, tags) = MemoMutation::create(NewMemo {
        title: "New Memo".to_string(),
        text: "This is a new memo for testing create method.".to_string(),
        date: DAY,
        tag_ids: vec![10, 11],
        user_id: 2,
    });
    assert_eq!(m.title, "New Memo");
    assert_eq!(m.text, "This is a new memo for testing create method.");
    assert_eq!(m.date, DAY);
    assert!(!m.favorite);
    assert!(!m.archived);
    assert_eq!(m.user_id, 2);
    assert_eq!(m.created_at, m.updated_at);
    assert_eq!(tags, vec![10, 11]);
    assert_eq!(version(m.id), 4);
}

#[test]
fn memo_mutation_partial_update_title() {
    let mut form = memo_form();
    form.title = Some("Updated Memo".to_string());
    let (m, tags) = MemoMutation::partial_update(Some(memo()), form).unwrap();
    assert_eq!(m.title, "Updated Memo");
    assert_eq!(m.text, memo().text);
    assert_eq!(m.date, memo().date);
    assert_eq!(m.favorite, memo().favorite);
    assert_eq!(m.created_at, memo().created_at);
    assert!(m.updated_at.secs > memo().updated_at.secs);
    assert_eq!(tags, None);
}

#[test]
fn memo_mutation_partial_update_text() {
    let mut form = memo_form();
    form.text = Some("Updated text".to_string());
    let (m, _) = MemoMutation::partial_update(Some(memo()), form).unwrap();
    assert_eq!(m.text, "Updated text");
    assert_eq!(m.title, memo().title);
}

#[test]
fn memo_mutation_partial_update_date() {
    let mut form = memo_form();
    form.date = Some(DAY - 1);
    let (m, _) = MemoMutation::partial_update(Some(memo()), form).unwrap();
    assert_eq!(m.date, DAY - 1);
}

#[test]
fn partial_update_favorite() {
    let mut form = memo_form();
    form.favorite = Some(true);
    let (m, _) = MemoMutation::partial_update(Some(memo()), form).unwrap();
    assert!(m.favorite);
    assert_eq!(m.title, memo().title);
}

#[test]
fn memo_partial_update_passes_tag_list_on() {
    let mut form = memo_form();
    form.tag_ids = Some(vec![5]);
    let (_, tags) = MemoMutation::partial_update(Some(memo()), form).unwrap();
    assert_eq!(tags, Some(vec![5]));
}

#[test]
fn memo_mutation_partial_update_unauthorized() {
    assert_eq!(MemoMutation::partial_update(None, memo_form()), Err(CustomDbErr::NotFound));
}

#[test]
fn memo_mutation_delete() {
    assert_eq!(MemoMutation::delete(Some(memo())), Ok(memo()));
}

#[test]
fn memo_mutation_delete_unauthorized() {
    assert_eq!(MemoMutation::delete(None), Err(CustomDbErr::NotFound));
    assert_eq!(MemoQuery::find_by_id_and_user_id(None), Err(CustomDbErr::NotFound));
}

#[test]
fn challenge_mutation_create() {
    let (c, tags) = ChallengeMutation::create(NewChallenge {
        title: "New Challenge".to_string(),
        text: "This is a new challenge for testing create method.".to_string(),
        date: DAY,
        tag_ids: vec![3],
        user_id: 2,
    });
    assert_eq!(c.title, "New Challenge");
    assert!(!c.archived);
    assert_eq!(c.accomplished_at, None);
    assert_eq!(c.created_at, c.updated_at);
    assert_eq!(tags, vec![3]);
}

#[test]
fn challenge_mutation_partial_update_title() {
    let mut form = challenge_form();
    form.title = Some("Updated Challenge".to_string());
    let (c, _) = ChallengeMutation::partial_update(Some(challenge()), form).unwrap();
    assert_eq!(c.title, "Updated Challenge");
    assert_eq!(c.text, challenge().text);
    assert_eq!(c.archived, challenge().archived);
    assert_eq!(c.accomplished_at, challenge().accomplished_at);
}

#[test]
fn challenge_mutation_partial_update_text() {
    let mut form = challenge_form();
    form.text = Some("Updated text".to_string());
    let (c, _) = ChallengeMutation::partial_update(Some(challenge()), form).unwrap();
    assert_eq!(c.text, "Updated text");
}

#[test]
fn challenge_mutation_partial_update_date() {
    let mut form = challenge_form();
    form.date = Some(DAY + 3);
    let (c, _) = ChallengeMutation::partial_update(Some(challenge()), form).unwrap();
    assert_eq!(c.date, DAY + 3);
}

#[test]
fn challenge_mutation_partial_update_unauthorized() {
    assert_eq!(ChallengeMutation::partial_update(None, challenge_form()), Err(CustomDbErr::NotFound));
}

#[test]
fn challenge_mutation_delete() {
    assert_eq!(ChallengeMutation::delete(Some(challenge())), Ok(challenge()));
}

#[test]
fn challenge_mutation_delete_unauthorized() {
    assert_eq!(ChallengeMutation::delete(None), Err(CustomDbErr::NotFound));
    assert_eq!(ChallengeQuery::find_by_id_and_user_id(None), Err(CustomDbErr::NotFound));
}

#[test]
fn challenge_mutation_archive() {
    let c = ChallengeMutation::archive(Some(challenge())).unwrap();
    assert!(c.archived);
    assert_eq!(c.accomplished_at, None);
}

#[test]
fn challenge_mutation_archive_unauthorized() {
    assert_eq!(ChallengeMutation::archive(None), Err(CustomDbErr::NotFound));
}

#[test]
fn challenge_mutation_mark_accomplished() {
    let c = ChallengeMutation::mark_accomplished(Some(challenge())).unwrap();
    assert!(c.accomplished_at.is_some());
    assert!(!c.archived);
}

#[test]
fn challenge_mutation_mark_accomplished_unauthorized() {
    assert_eq!(ChallengeMutation::mark_accomplished(None), Err(CustomDbErr::NotFound));
}

#[test]
fn mission_memo_mutation_create() {
    let (m, tags) = MissionMemoMutation::create(NewMissionMemo {
        title: "New Mission Memo".to_string(),
        text: "text".to_string(),
        date: DAY,
        tag_ids: vec![],
        user_id: 2,
    });
    assert_eq!(m.title, "New Mission Memo");
    assert!(!m.archived);
    assert_eq!(m.accomplished_at, None);
    assert!(tags.is_empty());
}

#[test]
fn mission_memo_mutation_partial_update_title() {
    let mut form = mission_memo_form();
    form.title = Some("Updated".to_string());
    let (m, _) = MissionMemoMutation::partial_update(Some(mission_memo()), form).unwrap();
    assert_eq!(m.title, "Updated");
    assert_eq!(m.text, mission_memo().text);
}

#[test]
fn mission_memo_mutation_partial_update_text() {
    let mut form = mission_memo_form();
    form.text = Some("Updated text".to_string());
    let (m, _) = MissionMemoMutation::partial_update(Some(mission_memo()), form).unwrap();
    assert_eq!(m.text, "Updated text");
}

#[test]
fn mission_memo_mutation_partial_update_date() {
    let mut form = mission_memo_form();
    form.date = Some(DAY + 2);
    let (m, _) = MissionMemoMutation::partial_update(Some(mission_memo()), form).unwrap();
    assert_eq!(m.date, DAY + 2);
}

#[test]
fn mission_memo_mutation_partial_update_unauthorized() {
    assert_eq!(MissionMemoMutation::partial_update(None, mission_memo_form()), Err(CustomDbErr::NotFound));
}

#[test]
fn mission_memo_mutation_delete() {
    assert_eq!(MissionMemoMutation::delete(Some(mission_memo())), Ok(mission_memo()));
}

#[test]
fn mission_memo_mutation_delete_unauthorized() {
    assert_eq!(MissionMemoMutation::delete(None), Err(CustomDbErr::NotFound));
    assert_eq!(MissionMemoQuery::find_by_id_and_user_id(None), Err(CustomDbErr::NotFound));
}

#[test]
fn mission_memo_mutation_archive() {
    assert!(MissionMemoMutation::archive(Some(mission_memo())).unwrap().archived);
}

#[test]
fn mission_memo_mutation_archive_unauthorized() {
    assert_eq!(MissionMemoMutation::archive(None), Err(CustomDbErr::NotFound));
}

#[test]
fn mission_memo_mutation_mark_accomplished() {
    let m = MissionMemoMutation::mark_accomplished(Some(mission_memo())).unwrap();
    assert!(m.accomplished_at.is_some());
    assert_eq!(m.title, mission_memo().title);
}

#[test]
fn mission_memo_mutation_mark_accomplished_unauthorized() {
    assert_eq!(MissionMemoMutation::mark_accomplished(None), Err(CustomDbErr::NotFound));
}

#[test]
fn book_excerpt_mutation_create() {
    let (b, tags) = BookExcerptMutation::create(NewBookExcerpt {
        title: "New Book".to_string(),
        page_number: 12,
        text: "This is a new book excerpt for testing create method.".to_string(),
        date: DAY,
        tag_ids: vec![4],
        user_id: 2,
    });
    assert_eq!(b.title, "New Book");
    assert_eq!(b.page_number, 12);
    assert_eq!(b.date, DAY);
    assert_eq!(tags, vec![4]);
    assert_eq!(version(b.id), 4);
}

#[test]
fn book_excerpt_mutation_partial_update_title() {
    let mut form = book_excerpt_form();
    form.title = Some("Updated".to_string());
    let (b, _) = BookExcerptMutation::partial_update(Some(book_excerpt()), form).unwrap();
    assert_eq!(b.title, "Updated");
    assert_eq!(b.page_number, 1);
}

#[test]
fn book_excerpt_mutation_partial_update_page_number() {
    let mut form = book_excerpt_form();
    form.page_number = Some(998);
    let (b, _) = BookExcerptMutation::partial_update(Some(book_excerpt()), form).unwrap();
    assert_eq!(b.page_number, 998);
    assert_eq!(b.title, book_excerpt().title);
}

#[test]
fn book_excerpt_mutation_partial_update_text() {
    let mut form = book_excerpt_form();
    form.text = Some("Updated text".to_string());
    let (b, _) = BookExcerptMutation::partial_update(Some(book_excerpt()), form).unwrap();
    assert_eq!(b.text, "Updated text");
}

#[test]
fn book_excerpt_mutation_partial_update_date() {
    let mut form = book_excerpt_form();
    form.date = Some(DAY - 10);
    let (b, _) = BookExcerptMutation::partial_update(Some(book_excerpt()), form).unwrap();
    assert_eq!(b.date, DAY - 10);
}

#[test]
fn book_excerpt_mutation_partial_update_unauthorized() {
    assert_eq!(BookExcerptMutation::partial_update(None, book_excerpt_form()), Err(CustomDbErr::NotFound));
}

#[test]
fn book_excerpt_mutation_delete() {
    assert_eq!(BookExcerptMutation::delete(Some(book_excerpt())), Ok(book_excerpt()));
}

#[test]
fn book_excerpt_mutation_delete_unauthorized() {
    assert_eq!(BookExcerptMutation::delete(None), Err(CustomDbErr::NotFound));
    assert_eq!(BookExcerptQuery::find_by_id_and_user_id(None), Err(CustomDbErr::NotFound));
}

#[test]
fn reading_note_mutation_create() {
    let (n, tags) = ReadingNoteMutation::create(NewReadingNote {
        title: "New Book".to_string(),
        page_number: 12,
        text: "note".to_string(),
        date: DAY,
        tag_ids: vec![],
        user_id: 2,
    });
    assert_eq!(n.page_number, 12);
    assert!(tags.is_empty());
    assert_eq!(version(n.id), 7);
}

#[test]
fn reading_note_mutation_partial_update_title() {
    let mut form = reading_note_form();
    form.title = Some("Updated".to_string());
    let (n, _) = ReadingNoteMutation::partial_update(Some(reading_note()), form).unwrap();
    assert_eq!(n.title, "Updated");
}

#[test]
fn reading_note_mutation_partial_update_page_number() {
    let mut form = reading_note_form();
    form.page_number = Some(998);
    let (n, _) = ReadingNoteMutation::partial_update(Some(reading_note()), form).unwrap();
    assert_eq!(n.page_number, 998);
}

#[test]
fn reading_note_mutation_partial_update_text() {
    let mut form = reading_note_form();
    form.text = Some("Updated text".to_string());
    let (n, _) = ReadingNoteMutation::partial_update(Some(reading_note()), form).unwrap();
    assert_eq!(n.text, "Updated text");
}

#[test]
fn reading_note_mutation_partial_update_date() {
    let mut form = reading_note_form();
    form.date = Some(DAY - 10);
    let (n, _) = ReadingNoteMutation::partial_update(Some(reading_note()), form).unwrap();
    assert_eq!(n.date, DAY - 10);
}

#[test]
fn reading_note_mutation_partial_update_unauthorized() {
    assert_eq!(ReadingNoteMutation::partial_update(None, reading_note_form()), Err(CustomDbErr::NotFound));
}

#[test]
fn reading_note_mutation_delete() {
    assert_eq!(ReadingNoteMutation::delete(Some(reading_note())), Ok(reading_note()));
}

#[test]
fn reading_note_mutation_delete_unauthorized() {
    assert_eq!(ReadingNoteMutation::delete(None), Err(CustomDbErr::NotFound));
    assert_eq!(ReadingNoteQuery::find_by_id_and_user_id(None), Err(CustomDbErr::NotFound));
}

#[test]
fn diary_mutation_create() {
    let (d, tags) = DiaryMutation::create(NewDiary {
        text: None,
        date: DAY,
        score: Some(3),
        tag_ids: vec![8],
        user_id: 2,
    });
    assert_eq!(d.text, None);
    assert_eq!(d.score, Some(3));
    assert_eq!(d.user_id, 2);
    assert_eq!(tags, vec![8]);
    assert_eq!(version(d.id), 7);
}

#[test]
fn diary_mutation_partial_update_text() {
    let (d, tags) = DiaryMutation::partial_update(Some(diary()), diary_form(vec![DiaryKey::Text])).unwrap();
    assert_eq!(d.text, Some("updated".to_string()));
    assert_eq!(d.date, DAY);
    assert_eq!(d.score, Some(4));
    assert_eq!(tags, None);
}

#[test]
fn diary_mutation_partial_update_date() {
    let (d, _) = DiaryMutation::partial_update(Some(diary()), diary_form(vec![DiaryKey::Date])).unwrap();
    assert_eq!(d.date, DAY + 1);
    assert_eq!(d.text, Some("diary".to_string()));
}

#[test]
fn partial_update_score() {
    let (d, _) = DiaryMutation::partial_update(Some(diary()), diary_form(vec![DiaryKey::Score])).unwrap();
    assert_eq!(d.score, Some(2));
    assert_eq!(d.date, DAY);
}

#[test]
fn diary_mutation_partial_update_add_tags() {
    let (d, tags) = DiaryMutation::partial_update(Some(diary()), diary_form(vec![DiaryKey::TagIds])).unwrap();
    assert_eq!(d, diary());
    assert_eq!(tags, Some(vec![30]));
}

#[test]
fn diary_mutation_partial_update_remove_tags() {
    let mut form = diary_form(vec![DiaryKey::TagIds]);
    form.tag_ids = vec![];
    let (_, tags) = DiaryMutation::partial_update(Some(diary()), form).unwrap();
    assert_eq!(tags, Some(vec![]));
}

#[test]
fn diary_mutation_partial_update_unauthorized() {
    assert_eq!(DiaryMutation::partial_update(None, diary_form(vec![])), Err(CustomDbErr::NotFound));
}

#[test]
fn diary_mutation_delete() {
    assert_eq!(DiaryMutation::delete(Some(diary())), Ok(diary()));
}

#[test]
fn diary_mutation_delete_unauthorized() {
    assert_eq!(DiaryMutation::delete(None), Err(CustomDbErr::NotFound));
    assert_eq!(DiaryQuery::find_by_id_and_user_id(None), Err(CustomDbErr::NotFound));
}

#[test]
fn diary_names_key() {
    assert!(names_key(&vec![DiaryKey::Text, DiaryKey::Score], DiaryKey::Score));
    assert!(!names_key(&vec![DiaryKey::Text], DiaryKey::Date));
}

#[test]
fn memo_repeated_partial_update_changes_only_update_time() {
    let form = UpdateMemo {
        title: Some("again".to_string()),
        favorite: Some(true),
        tag_ids: Some(vec![7, 8]),
        ..memo_form()
    };
    let (once, tags_once) = MemoMutation::partial_update(Some(memo()), form.clone()).unwrap();
    let (twice, tags_twice) = MemoMutation::partial_update(Some(once.clone()), form).unwrap();
    assert_eq!(Memo { updated_at: once.updated_at, ..twice }, once);
    assert!(twice.updated_at.secs >= once.updated_at.secs);
    assert_eq!(tags_once, tags_twice);
}
