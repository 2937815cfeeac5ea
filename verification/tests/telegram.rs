use ava::error::Error;
use ava::telegram::{
    after_send, api_outcome, api_url, escape_html, is_allowed, next_offset, parse_allowed_ids,
    parse_mode_name, route_update, trim, CallbackQuery, Chat, Message, ParseMode, Route, SendStep,
    Update, User,
};

#[test]
fn test_escape_html() {
    assert_eq!(escape_html("hello"), "hello");
    assert_eq!(escape_html("<script>"), "&lt;script&gt;");
    assert_eq!(escape_html("a & b"), "a &amp; b");
    assert_eq!(escape_html("1 < 2 > 0"), "1 &lt; 2 &gt; 0");
}

#[test]
fn escape_html_does_not_escape_twice() {
    assert_eq!(escape_html("&lt;"), "&amp;lt;");
    assert_eq!(escape_html(""), "");
}

#[test]
fn chat_service_answers() {
    assert_eq!(api_url("123:abc", "sendMessage"), "https://api.telegram.org/bot123:abc/sendMessage");
    assert_eq!(api_outcome(true, Some("ignored".into())), Ok(()));
    assert_eq!(api_outcome(false, Some("bad request".into())), Err(Error::Telegram("bad request".into())));
    assert_eq!(api_outcome(false, None), Err(Error::Telegram("unknown error".into())));
    assert!(is_allowed(Some(5), &vec![1, 5]));
    assert!(!is_allowed(Some(6), &vec![1, 5]));
    assert!(!is_allowed(None, &vec![1, 5]));
    assert!(!is_allowed(Some(1), &Vec::new()));
}

#[test]
fn allowed_ids_are_read_from_a_list() {
    assert_eq!(parse_allowed_ids("1, 2,x, -5,+7 ,99999999999999999999,,"), vec![1, 2, -5, 7]);
    assert_eq!(parse_allowed_ids(""), Vec::<i64>::new());
    assert_eq!(parse_allowed_ids("42"), vec![42]);
    assert_eq!(parse_allowed_ids("007,1_000,1 2,0x10,-,+"), vec![7]);
    assert_eq!(
        parse_allowed_ids("9223372036854775807,-9223372036854775808,9223372036854775808"),
        vec![i64::MAX, i64::MIN]
    );
    let padded: Vec<char> = " \t a b \n".chars().collect();
    assert_eq!(trim(&padded), vec!['a', ' ', 'b']);
    assert_eq!(trim(&vec![' ', ' ']), Vec::<char>::new());
    assert_eq!(trim(&Vec::new()), Vec::<char>::new());
}

#[test]
fn refused_html_is_sent_again_as_plain_text() {
    assert_eq!(parse_mode_name(ParseMode::Html), Some("HTML"));
    assert_eq!(parse_mode_name(ParseMode::Plain), None);
    assert_eq!(after_send(ParseMode::Html, true, None), SendStep::Done);
    assert_eq!(after_send(ParseMode::Plain, true, Some("x".into())), SendStep::Done);
    assert_eq!(after_send(ParseMode::Html, false, Some("bad tag".into())), SendStep::RetryPlain);
    assert_eq!(
        after_send(ParseMode::Plain, false, Some("chat not found".into())),
        SendStep::Fail(Error::Telegram("chat not found".into()))
    );
    assert_eq!(
        after_send(ParseMode::Plain, false, None),
        SendStep::Fail(Error::Telegram("unknown error".into()))
    );
}

#[test]
fn updates_are_routed() {
    let message = |from: Option<i64>, text: Option<&str>| Message {
        message_id: 1,
        from: from.map(|id| User { id }),
        chat: Chat { id: 77 },
        text: text.map(String::from),
    };
    let update = |message: Option<Message>, callback_query: Option<CallbackQuery>| Update {
        update_id: 5,
        message,
        callback_query,
    };
    let allowed = vec![10, 11];

    assert_eq!(route_update(&update(None, None), &allowed), Route::Skip);
    assert_eq!(route_update(&update(Some(message(Some(10), None)), None), &allowed), Route::Skip);
    assert_eq!(
        route_update(&update(Some(message(Some(10), Some("hi"))), None), &allowed),
        Route::Chat { chat_id: 77, text: "hi".into() }
    );
    assert_eq!(
        route_update(&update(Some(message(Some(12), Some("hi"))), None), &allowed),
        Route::Unauthorized { user_id: Some(12) }
    );
    assert_eq!(
        route_update(&update(Some(message(None, Some("hi"))), None), &allowed),
        Route::Unauthorized { user_id: None }
    );
    assert_eq!(
        route_update(&update(Some(message(Some(10), Some("hi"))), None), &Vec::new()),
        Route::Unauthorized { user_id: Some(10) }
    );

    let query = |from: i64, data: Option<&str>, message: Option<Message>| CallbackQuery {
        id: "q1".into(),
        from: User { id: from },
        message,
        data: data.map(String::from),
    };
    assert_eq!(
        route_update(
            &update(
                Some(message(Some(10), Some("hi"))),
                Some(query(11, Some("exec:aa:deny"), Some(message(None, None))))
            ),
            &allowed
        ),
        Route::Callback { query_id: "q1".into(), data: "exec:aa:deny".into(), chat_id: 77 }
    );
    assert_eq!(
        route_update(&update(None, Some(query(11, None, None))), &allowed),
        Route::Callback { query_id: "q1".into(), data: String::new(), chat_id: 0 }
    );
    assert_eq!(
        route_update(&update(None, Some(query(12, Some("exec:aa:deny"), None))), &allowed),
        Route::Unauthorized { user_id: Some(12) }
    );
    assert_eq!(next_offset(5), 6);
    assert_eq!(next_offset(-1), 0);
    assert_eq!(next_offset(i64::MAX), i64::MAX);
}
