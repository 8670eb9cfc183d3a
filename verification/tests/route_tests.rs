use actix_demo::custom_error::CustomError;
use actix_demo::route_set::do_something_reply;
use actix_demo::database::User;
use actix_demo::enumerate::GenderEnum;
use actix_demo::route_set::{
    book, book2, db_diesel, db_diesel_post, foo, index, kkkk, other, post1, put1, redis_del,
    redis_del_command, redis_hset, redis_hset_command, redis_set, redis_set_commands, redis_test,
    redis_test_command, stud2_post, db_diesel_post_reply, test_lambda, RequestMethod, stud2_response, stud_post, test1, test12, test2, test4, test5,
    test6, uuuu, welcome, BodyCollector, Overflow, RedisReply, BODY_LIMIT,
};
use actix_demo::student::{Stud, Student};

#[test]
fn greeting_texts() {
    assert_eq!(index("Tom", -1), "Welcome Tom! gender: -1");
    assert_eq!(foo(), "hello, sf二手房jl\n");
    assert_eq!(other("/a/b?c=1"), "Other Req /a/b?c=1");
    assert_eq!(book(42), "hello 42 is id");
    assert_eq!(book2("rust"), "￥￥hello rust is id");
    assert_eq!(test5("ann", 7), "TTT ann is id 7");
    assert_eq!(test6("ann", GenderEnum::Female), "TTT ann is id Female");
    assert_eq!(test6("bo", GenderEnum::Double), "TTT bo is id Double");
}

#[test]
fn stud_texts() {
    let s = Stud { name: "kkk".to_string(), age: "88".to_string() };
    assert_eq!(test1(&s), "￥￥hello kkk is id 88");
    assert_eq!(test2(&s), "￥￥hello kkk is sfsd 88");
}

#[test]
fn optional_name_text() {
    assert_eq!(test12(Some("li")), "33￥￥444hello li is sfsd");
    assert_eq!(test12(None), "33￥￥444hello 未提供 is sfsd");
}

#[test]
fn pair_debug_text() {
    assert_eq!(test4("kkk", "88"), "RRhello (\"kkk\", \"88\") is sfsd");
    assert_eq!(test4("a\"b", ""), "RRhello (\"a\\\"b\", \"\") is sfsd");
}

#[test]
fn request_counters() {
    let mut c: usize = 0;
    assert_eq!(kkkk(&mut c), "Num of requests: 1");
    assert_eq!(uuuu(&mut c), "E$$DNum of requests: 2");
    assert_eq!(kkkk(&mut c), "Num of requests: 3");
    assert_eq!(c, 3);
    let mut d: usize = 99;
    assert_eq!(kkkk(&mut d), "Num of requests: 100");
}

#[test]
fn student_echo() {
    let s = Student::new("Amy".to_string(), 20);
    assert_eq!(post1(&s), "{\"name\":\"Amy\",\"age\":20}");
    assert_eq!(put1(&s), "{\"name\":\"Amy\",\"age\":20}");
    assert_eq!(stud_post(&s), "{\"name\":\"Amy\",\"age\":20}");
    assert_eq!(s.name(), "Amy");
    assert_eq!(s.age(), 20);
}

#[test]
fn body_collector_keeps_limit() {
    assert_eq!(BODY_LIMIT, 32);
    let mut b = BodyCollector::new();
    assert_eq!(b.len(), 0);
    assert_eq!(b.accept(&[1u8; 20]), Ok(()));
    assert_eq!(b.len(), 20);
    assert_eq!(b.accept(&[2u8; 13]), Err(Overflow));
    assert_eq!(b.len(), 20);
    assert_eq!(b.accept(&[3u8; 12]), Ok(()));
    assert_eq!(b.len(), 32);
    assert_eq!(b.accept(&[4u8; 1]), Err(Overflow));
    assert_eq!(b.accept(&[]), Ok(()));
    let buffer = b.into_buffer();
    let mut expected = vec![1u8; 20];
    expected.extend_from_slice(&[3u8; 12]);
    assert_eq!(&buffer[..], &expected[..]);
}

#[test]
fn body_collector_single_large_chunk() {
    let mut b = BodyCollector::new();
    assert_eq!(b.accept(&[0u8; 33]), Err(Overflow));
    assert_eq!(b.len(), 0);
    assert_eq!(b.accept(&[9u8; 32]), Ok(()));
    assert_eq!(&b.into_buffer()[..], &[9u8; 32][..]);
}

#[test]
fn stud2_reformats_json() {
    assert_eq!(stud2_post("{\"a\": [1, 2],  \"b\": true}"), "{\"a\":[1,2],\"b\":true}");
    assert_eq!(stud2_post(" \"x\" "), "\"x\"");
}

#[test]
fn stud2_reports_parse_errors() {
    assert_eq!(stud2_post("{"), "{\"err\":\"Unexpected end of JSON\"}");
    assert_eq!(stud2_response(Err("bad \"x\"".to_string())), "{\"err\":\"bad \\\"x\\\"\"}");
    assert_eq!(stud2_response(Ok("[1]".to_string())), "[1]");
}

#[test]
fn session_counter() {
    assert_eq!(welcome(None), 100);
    assert_eq!(welcome(Some(100)), 101);
    assert_eq!(welcome(Some(-5)), -4);
}

#[test]
fn redis_commands() {
    let s = Stud { name: "n".to_string(), age: "9".to_string() };
    assert_eq!(
        redis_set_commands(&s),
        vec![
            vec!["SET".to_string(), "namespace1:key:name".to_string(), "n".to_string()],
            vec!["SET".to_string(), "namespace1:key:age".to_string(), "9".to_string()],
        ]
    );
    assert_eq!(redis_test_command("v"), vec!["SET", "kkk", "v"]);
    assert_eq!(redis_del_command("k"), vec!["DEL", "k"]);
    assert_eq!(redis_hset_command("k", "f", "v"), vec!["HSET", "k", "f", "v"]);
}

#[test]
fn redis_replies() {
    let ok = || RedisReply::SimpleString("OK".to_string());
    let r = redis_set(&vec![ok(), ok()]);
    assert_eq!((r.status, r.body.as_str()), (200, "successfully cached values\n"));
    let r = redis_set(&vec![ok(), RedisReply::Integer(1)]);
    assert_eq!((r.status, r.body.as_str()), (500, ""));
    let r = redis_set(&vec![RedisReply::Other, ok()]);
    assert_eq!((r.status, r.body.as_str()), (500, ""));
    let r = redis_test(&ok());
    assert_eq!((r.status, r.body.as_str()), (200, "successfully set\n"));
    let r = redis_test(&RedisReply::SimpleString("ok".to_string()));
    assert_eq!((r.status, r.body.as_str()), (500, ""));
    let r = redis_del(&RedisReply::Integer(1));
    assert_eq!((r.status, r.body.as_str()), (200, "successfully del\n"));
    let r = redis_del(&RedisReply::Integer(0));
    assert_eq!((r.status, r.body.as_str()), (500, ""));
    let r = redis_hset(&RedisReply::Integer(1));
    assert_eq!((r.status, r.body.as_str()), (200, "successfully hset\n"));
    let r = redis_hset(&ok());
    assert_eq!((r.status, r.body.as_str()), (500, ""));
}

#[test]
fn database_rows() {
    assert_eq!(db_diesel(vec![]), "没有数据");
    let rows = vec![
        User { id: 1, name: "a".to_string(), age: 3 },
        User { id: 2, name: "王\"五".to_string(), age: -4 },
    ];
    assert_eq!(db_diesel(rows), "{\"id\":2,\"name\":\"王\\\"五\",\"age\":-4}");
    let row = db_diesel_post("zs".to_string(), 18);
    assert_eq!(row.id, None);
    assert_eq!(row.name, "zs");
    assert_eq!(row.age, 18);
}

#[test]
fn stud2_error_object_escapes_like_json() {
    assert_eq!(
        stud2_response(Err("a\u{1}\\b".to_string())),
        "{\"err\":\"a\\u0001\\\\b\"}"
    );
    assert_eq!(stud2_post("[1,"), "{\"err\":\"Unexpected end of JSON\"}");
    assert_eq!(stud2_post("null"), "null");
}

#[test]
fn do_something_reply_follows_the_outcome() {
    assert_eq!(do_something_reply(Ok(())), Ok("Nothing happened.".to_string()));
    for e in [CustomError::CustomOne, CustomError::CustomTwo, CustomError::CustomThree, CustomError::CustomFour] {
        assert_eq!(do_something_reply(Err(e)), Err(e));
    }
}

#[test]
fn insert_reply() {
    assert_eq!(db_diesel_post_reply(Ok(1)), Ok("插入数据成功".to_string()));
    assert_eq!(db_diesel_post_reply(Err("DatabaseError".to_string())), Err("DatabaseError".to_string()));
}

#[test]
fn lambda_statuses() {
    assert_eq!(test_lambda(RequestMethod::Get), 200);
    assert_eq!(test_lambda(RequestMethod::Post), 405);
    assert_eq!(test_lambda(RequestMethod::Other), 404);
}
