//! What the service's request handlers compute: the texts they answer, the
//! commands they send to the key-value store and how they judge its replies,
//! the limit on a streamed body, and the errors they raise.
use vstd::prelude::*;
use vstd::string::*;

use crate::custom_error::{do_something_random, error_of_index, CommonError, CustomError};
use crate::database::{user_json, User, UserDo};
use crate::enumerate::GenderEnum;
use crate::regex_constants::PhoneRule;
use crate::reply::Reply;
use crate::student::{student_json, NeedValidData, Stud, Student};
use crate::text::{
    debug_quoted, decimal_int, decimal_nat, json_quoted, push_debug_string, push_decimal_i64,
    push_decimal_u64, push_text,
};

verus! {

/// `GET /name/{name}/gender/{gender}`: `Welcome <name>! gender: <gender>`.
pub fn index(name: &str, gender: i32) -> (s: String)
    ensures
        s@ == "Welcome "@ + name@ + "! gender: "@ + decimal_int(gender as int),
{
    let mut s = String::from_str("Welcome ");
    push_text(&mut s, name);
    push_text(&mut s, "! gender: ");
    push_decimal_i64(&mut s, gender as i64);
    s
}

/// `GET /ttt`: a fixed greeting.
pub fn foo() -> (s: &'static str)
    ensures
        s@ == "hello, sf二手房jl\n"@,
{
    "hello, sf二手房jl\n"
}

/// Any unmatched request: `Other Req <uri>`.
pub fn other(uri: &str) -> (s: String)
    ensures
        s@ == "Other Req "@ + uri@,
{
    let mut s = String::from_str("Other Req ");
    push_text(&mut s, uri);
    s
}

/// Counts one more request and tells the new count after `prefix`.
fn count_request(counter: &mut usize, prefix: &str) -> (s: String)
    requires
        *old(counter) < usize::MAX,
    ensures
        *final(counter) == *old(counter) + 1,
        s@ == prefix@ + decimal_nat(*final(counter) as nat),
{
    *counter = *counter + 1;
    let mut s = String::from_str(prefix);
    push_decimal_u64(&mut s, *counter as u64);
    s
}

/// `/kkkk`: counts the request in the shared counter and answers
/// `Num of requests: <count>`.
pub fn kkkk(counter: &mut usize) -> (s: String)
    requires
        *old(counter) < usize::MAX,
    ensures
        *final(counter) == *old(counter) + 1,
        s@ == "Num of requests: "@ + decimal_nat(*final(counter) as nat),
{
    count_request(counter, "Num of requests: ")
}

/// `GET /uuuu`: counts the request in the shared counter and answers
/// `E$$DNum of requests: <count>`.
pub fn uuuu(counter: &mut usize) -> (s: String)
    requires
        *old(counter) < usize::MAX,
    ensures
        *final(counter) == *old(counter) + 1,
        s@ == "E$$DNum of requests: "@ + decimal_nat(*final(counter) as nat),
{
    count_request(counter, "E$$DNum of requests: ")
}

/// `GET /book/id/{id}`: `hello <id> is id`.
pub fn book(id: i32) -> (s: String)
    ensures
        s@ == "hello "@ + decimal_int(id as int) + " is id"@,
{
    let mut s = String::from_str("hello ");
    push_decimal_i64(&mut s, id as i64);
    push_text(&mut s, " is id");
    s
}

/// `GET /book/name/{name}`: `￥￥hello <name> is id`.
pub fn book2(name: &str) -> (s: String)
    ensures
        s@ == "￥￥hello "@ + name@ + " is id"@,
{
    let mut s = String::from_str("￥￥hello ");
    push_text(&mut s, name);
    push_text(&mut s, " is id");
    s
}

/// `GET /test1/{name}/{age}`: `￥￥hello <name> is id <age>`.
pub fn test1(info: &Stud) -> (s: String)
    ensures
        s@ == "￥￥hello "@ + info.name@ + " is id "@ + info.age@,
{
    let mut s = String::from_str("￥￥hello ");
    push_text(&mut s, info.name.as_str());
    push_text(&mut s, " is id ");
    push_text(&mut s, info.age.as_str());
    s
}

/// `GET /test5/{name}/{age}`: `TTT <name> is id <age>`.
pub fn test5(name: &str, age: i32) -> (s: String)
    ensures
        s@ == "TTT "@ + name@ + " is id "@ + decimal_int(age as int),
{
    let mut s = String::from_str("TTT ");
    push_text(&mut s, name);
    push_text(&mut s, " is id ");
    push_decimal_i64(&mut s, age as i64);
    s
}

/// `GET /test6/{name}/{gender}`: `TTT <name> is id <gender's variant name>`.
pub fn test6(name: &str, gender: GenderEnum) -> (s: String)
    ensures
        s@ == "TTT "@ + name@ + " is id "@ + gender.debug_text(),
{
    let mut s = String::from_str("TTT ");
    push_text(&mut s, name);
    push_text(&mut s, " is id ");
    let g = gender.debug_name();
    push_text(&mut s, g.as_str());
    s
}

/// `GET /test2?name=..&age=..`: `￥￥hello <name> is sfsd <age>`.
pub fn test2(info: &Stud) -> (s: String)
    ensures
        s@ == "￥￥hello "@ + info.name@ + " is sfsd "@ + info.age@,
{
    let mut s = String::from_str("￥￥hello ");
    push_text(&mut s, info.name.as_str());
    push_text(&mut s, " is sfsd ");
    push_text(&mut s, info.age.as_str());
    s
}

/// `GET /test12?name=..`: `33￥￥444hello <name> is sfsd`, with `未提供` where no
/// name is given.
pub fn test12(name: Option<&str>) -> (s: String)
    ensures
        s@ == "33￥￥444hello "@ + (match name {
            Some(n) => n@,
            None => "未提供"@,
        }) + " is sfsd"@,
{
    let mut s = String::from_str("33￥￥444hello ");
    match name {
        Some(n) => push_text(&mut s, n),
        None => push_text(&mut s, "未提供"),
    }
    push_text(&mut s, " is sfsd");
    s
}

/// `GET /test4?..`: `RRhello ("<first>", "<second>") is sfsd`, the pair in its
/// `Debug` form.
pub fn test4(first: &str, second: &str) -> (s: String)
    ensures
        s@ == "RRhello ("@ + debug_quoted(first@) + ", "@ + debug_quoted(second@) + ") is sfsd"@,
{
    let mut s = String::from_str("RRhello (");
    push_debug_string(&mut s, first);
    push_text(&mut s, ", ");
    push_debug_string(&mut s, second);
    push_text(&mut s, ") is sfsd");
    s
}

/// `POST /post1`: the posted student, echoed as JSON.
pub fn post1(item: &Student) -> (s: String)
    ensures
        s@ == student_json(item.spec_name(), item.spec_age() as nat),
{
    item.to_json()
}

/// `PUT /student/id/{id}`: the student, echoed as JSON.
pub fn put1(item: &Student) -> (s: String)
    ensures
        s@ == student_json(item.spec_name(), item.spec_age() as nat),
{
    item.to_json()
}

/// The most bytes that `POST /stud` takes in a body.
pub const BODY_LIMIT: usize = 32;

/// A chunk would take the body beyond `BODY_LIMIT` bytes.
#[derive(Debug, Clone, Copy, PartialEq, Eq, Structural)]
pub struct Overflow;

#[verifier::external_type_specification]
#[verifier::external_body]
pub struct ExBytesMut(bytes::BytesMut);

/// The bytes that a `BytesMut` buffer holds.
pub uninterp spec fn buffer_contents(b: bytes::BytesMut) -> Seq<u8>;

/// Trusted: `BytesMut::with_capacity` gives an empty buffer.
#[verifier::external_body]
fn buffer_with_capacity(capacity: usize) -> (b: bytes::BytesMut)
    ensures
        buffer_contents(b) == Seq::<u8>::empty(),
{
    bytes::BytesMut::with_capacity(capacity)
}

/// Trusted: `BytesMut::len` is the number of bytes the buffer holds.
#[verifier::external_body]
fn buffer_len(b: &bytes::BytesMut) -> (n: usize)
    ensures
        n == buffer_contents(*b).len(),
{
    b.len()
}

/// Trusted: `BytesMut::extend_from_slice` appends the slice after the bytes held;
/// it panics only when the new length overflows `usize`, which `requires` leaves out.
#[verifier::external_body]
fn buffer_extend(b: &mut bytes::BytesMut, chunk: &[u8])
    requires
        buffer_contents(*old(b)).len() + chunk@.len() <= usize::MAX,
    ensures
        buffer_contents(*final(b)) == buffer_contents(*old(b)) + chunk@,
{
    b.extend_from_slice(chunk)
}

/// The body of `POST /stud`, collected chunk by chunk as it streams in; it never
/// holds more than `BODY_LIMIT` bytes.
pub struct BodyCollector {
    buffer: bytes::BytesMut,
}

impl BodyCollector {
    #[verifier::type_invariant]
    spec fn within_limit(&self) -> bool {
        buffer_contents(self.buffer).len() <= BODY_LIMIT
    }

    /// The bytes taken in so far.
    pub closed spec fn contents(&self) -> Seq<u8> {
        buffer_contents(self.buffer)
    }

    /// An empty body, in a buffer made for 16 bytes.
    pub fn new() -> (b: BodyCollector)
        ensures
            b.contents() == Seq::<u8>::empty(),
    {
        BodyCollector { buffer: buffer_with_capacity(16) }
    }

    /// The number of bytes taken in so far, which is never above `BODY_LIMIT`.
    pub fn len(&self) -> (n: usize)
        ensures
            n == self.contents().len(),
            n <= BODY_LIMIT,
    {
        proof {
            use_type_invariant(self);
        }
        buffer_len(&self.buffer)
    }

    /// Takes in the next chunk, unless the body would then hold more than
    /// `BODY_LIMIT` bytes: then the body stays as it was and the request is refused.
    pub fn accept(&mut self, chunk: &[u8]) -> (r: Result<(), Overflow>)
        ensures
            old(self).contents().len() + chunk@.len() > BODY_LIMIT ==> r is Err
                && final(self).contents() == old(self).contents(),
            old(self).contents().len() + chunk@.len() <= BODY_LIMIT ==> r is Ok
                && final(self).contents() == old(self).contents() + chunk@,
    {
        proof {
            use_type_invariant(&*self);
        }
        if chunk.len() > BODY_LIMIT - buffer_len(&self.buffer) {
            return Err(Overflow);
        }
        let mut buffer = buffer_with_capacity(0);
        std::mem::swap(&mut buffer, &mut self.buffer);
        buffer_extend(&mut buffer, chunk);
        self.buffer = buffer;
        Ok(())
    }

    /// The buffer of the bytes taken in.
    pub fn into_buffer(self) -> (b: bytes::BytesMut)
        ensures
            buffer_contents(b) == self.contents(),
    {
        self.buffer
    }
}

/// `POST /stud`: the body's student, echoed as JSON.
pub fn stud_post(item: &Student) -> (s: String)
    ensures
        s@ == student_json(item.spec_name(), item.spec_age() as nat),
{
    item.to_json()
}

/// `json::parse` accepts the text.
pub uninterp spec fn json_text_valid(s: Seq<char>) -> bool;

/// The compact JSON text (`JsonValue::dump`) of what `json::parse` reads from a
/// text it accepts.
pub uninterp spec fn json_reformatted(s: Seq<char>) -> Seq<char>;

/// The `Display` text of the error that `json::parse` gives for a text it refuses.
pub uninterp spec fn json_error_message(s: Seq<char>) -> Seq<char>;

/// Trusted: `json::parse`, then `JsonValue::dump` of the value read or the
/// `Display` text of the error. Parsing and printing depend on the text alone;
/// success is named `json_text_valid`, the printed value `json_reformatted` and
/// the error text `json_error_message`.
#[verifier::external_body]
fn json_read(text: &str) -> (r: Result<String, String>)
    ensures
        r is Ok <==> json_text_valid(text@),
        r matches Ok(t) ==> t@ == json_reformatted(text@),
        r matches Err(m) ==> m@ == json_error_message(text@),
{
    match json::parse(text) {
        Ok(value) => Ok(value.dump()),
        Err(e) => Err(e.to_string()),
    }
}

/// Trusted: `json::stringify` of a text writes its string literal, escaping each
/// ASCII byte by the table `ESCAPED` of `json::codegen` (the same as
/// `serde_json`'s) and copying every other byte, which is `json_quoted`.
#[verifier::external_body]
fn json_stringify(text: &str) -> (r: String)
    ensures
        r@ == json_quoted(text@),
{
    json::stringify(text)
}

/// The JSON object `{"err":<message>}`, as `json` writes an object of one text field.
pub open spec fn error_object_json(message: Seq<char>) -> Seq<char> {
    "{\"err\":"@ + json_quoted(message) + "}"@
}

/// `POST /stud2`: the body to answer, given what reading the posted text gave:
/// the compact JSON of the value read, or the reading error as `{"err":<error>}`.
pub fn stud2_response(read: Result<String, String>) -> (s: String)
    ensures
        match read {
            Ok(t) => s@ == t@,
            Err(m) => s@ == error_object_json(m@),
        },
{
    match read {
        Ok(t) => t,
        Err(m) => {
            let mut s = String::from_str("{\"err\":");
            let quoted = json_stringify(m.as_str());
            push_text(&mut s, quoted.as_str());
            push_text(&mut s, "}");
            s
        },
    }
}

/// `POST /stud2`: reads the posted text as JSON and answers its compact form,
/// or the reading error as `{"err":<error>}` when the text is not JSON.
pub fn stud2_post(text: &str) -> (s: String)
    ensures
        json_text_valid(text@) ==> s@ == json_reformatted(text@),
        !json_text_valid(text@) ==> s@ == error_object_json(json_error_message(text@)),
{
    stud2_response(json_read(text))
}

/// `GET /index`: the session counter after this visit: 100 on the first visit,
/// one more than the stored count after that.
pub fn welcome(stored: Option<i32>) -> (c: i32)
    requires
        stored != Some(i32::MAX),
    ensures
        c == match stored {
            Some(n) => n + 1,
            None => 100,
        },
{
    match stored {
        Some(n) => n + 1,
        None => 100,
    }
}

/// A reply of the key-value store to a command, as far as the handlers read it.
pub enum RedisReply {
    /// A status text, such as `OK`.
    SimpleString(String),
    /// A number.
    Integer(i64),
    /// Any other reply, or an error on the way.
    Other,
}

/// The reply is the status `OK`.
pub open spec fn is_ok_reply(r: RedisReply) -> bool {
    r matches RedisReply::SimpleString(s) && s@ == "OK"@
}

/// The reply is the number 1.
pub open spec fn is_one_reply(r: RedisReply) -> bool {
    r matches RedisReply::Integer(n) && n == 1
}

/// The texts of a command.
pub open spec fn command_view(cmd: Seq<String>) -> Seq<Seq<char>> {
    cmd.map_values(|s: String| s@)
}

fn reply_is_ok(r: &RedisReply) -> (b: bool)
    ensures
        b == is_ok_reply(*r),
{
    match r {
        RedisReply::SimpleString(s) => {
            let ok = String::from_str("OK");
            *s == ok
        },
        _ => false,
    }
}

fn reply_is_one(r: &RedisReply) -> (b: bool)
    ensures
        b == is_one_reply(*r),
{
    match r {
        RedisReply::Integer(n) => *n == 1,
        _ => false,
    }
}

/// An answer with status 200 and `body`, or status 500 and no body.
fn success_or_failure(succeeded: bool, body: &str) -> (r: Reply)
    ensures
        succeeded ==> r.status == 200 && r.body@ == body@,
        !succeeded ==> r.status == 500 && r.body@ == Seq::<char>::empty(),
{
    if succeeded {
        Reply { status: 200, body: String::from_str(body) }
    } else {
        Reply { status: 500, body: String::new() }
    }
}

/// `POST /redisSet`: the two commands that store the student's name and age.
pub fn redis_set_commands(info: &Stud) -> (cmds: Vec<Vec<String>>)
    ensures
        cmds@.len() == 2,
        command_view(cmds@[0]@) == seq!["SET"@, "namespace1:key:name"@, info.name@],
        command_view(cmds@[1]@) == seq!["SET"@, "namespace1:key:age"@, info.age@],
{
    let mut name_cmd: Vec<String> = Vec::new();
    name_cmd.push(String::from_str("SET"));
    name_cmd.push(String::from_str("namespace1:key:name"));
    name_cmd.push(info.name.clone());
    let mut age_cmd: Vec<String> = Vec::new();
    age_cmd.push(String::from_str("SET"));
    age_cmd.push(String::from_str("namespace1:key:age"));
    age_cmd.push(info.age.clone());
    assert(command_view(name_cmd@) =~= seq!["SET"@, "namespace1:key:name"@, info.name@]);
    assert(command_view(age_cmd@) =~= seq!["SET"@, "namespace1:key:age"@, info.age@]);
    let mut cmds: Vec<Vec<String>> = Vec::new();
    cmds.push(name_cmd);
    cmds.push(age_cmd);
    cmds
}

/// `POST /redisSet`: success when every command was answered `OK`.
pub fn redis_set(replies: &Vec<RedisReply>) -> (r: Reply)
    ensures
        (forall|i: int| 0 <= i < replies@.len() ==> is_ok_reply(#[trigger] replies@[i])) ==> r.status
            == 200 && r.body@ == "successfully cached values\n"@,
        !(forall|i: int| 0 <= i < replies@.len() ==> is_ok_reply(#[trigger] replies@[i]))
            ==> r.status == 500 && r.body@ == Seq::<char>::empty(),
{
    let mut all_ok = true;
    let mut i: usize = 0;
    while i < replies.len()
        invariant
            i <= replies@.len(),
            all_ok == (forall|k: int| 0 <= k < i ==> is_ok_reply(#[trigger] replies@[k])),
        decreases replies@.len() - i,
    {
        let ok = reply_is_ok(&replies[i]);
        if !ok {
            all_ok = false;
        }
        i = i + 1;
    }
    success_or_failure(all_ok, "successfully cached values\n")
}

/// `GET /redisTest/{val}`: the command that stores `val` under `kkk`.
pub fn redis_test_command(val: &str) -> (cmd: Vec<String>)
    ensures
        command_view(cmd@) == seq!["SET"@, "kkk"@, val@],
{
    let mut cmd: Vec<String> = Vec::new();
    cmd.push(String::from_str("SET"));
    cmd.push(String::from_str("kkk"));
    cmd.push(String::from_str(val));
    assert(command_view(cmd@) =~= seq!["SET"@, "kkk"@, val@]);
    cmd
}

/// `GET /redisTest/{val}`: success when the store answered `OK`.
pub fn redis_test(reply: &RedisReply) -> (r: Reply)
    ensures
        is_ok_reply(*reply) ==> r.status == 200 && r.body@ == "successfully set\n"@,
        !is_ok_reply(*reply) ==> r.status == 500 && r.body@ == Seq::<char>::empty(),
{
    success_or_failure(reply_is_ok(reply), "successfully set\n")
}

/// `GET /redis_del/{key}`: the command that deletes `key`.
pub fn redis_del_command(key: &str) -> (cmd: Vec<String>)
    ensures
        command_view(cmd@) == seq!["DEL"@, key@],
{
    let mut cmd: Vec<String> = Vec::new();
    cmd.push(String::from_str("DEL"));
    cmd.push(String::from_str(key));
    assert(command_view(cmd@) =~= seq!["DEL"@, key@]);
    cmd
}

/// `GET /redis_del/{key}`: success when the store deleted exactly one key.
pub fn redis_del(reply: &RedisReply) -> (r: Reply)
    ensures
        is_one_reply(*reply) ==> r.status == 200 && r.body@ == "successfully del\n"@,
        !is_one_reply(*reply) ==> r.status == 500 && r.body@ == Seq::<char>::empty(),
{
    success_or_failure(reply_is_one(reply), "successfully del\n")
}

/// `GET /redis_hset/{key}/{field}/{value}`: the command that sets the field of a hash.
pub fn redis_hset_command(key: &str, field: &str, value: &str) -> (cmd: Vec<String>)
    ensures
        command_view(cmd@) == seq!["HSET"@, key@, field@, value@],
{
    let mut cmd: Vec<String> = Vec::new();
    cmd.push(String::from_str("HSET"));
    cmd.push(String::from_str(key));
    cmd.push(String::from_str(field));
    cmd.push(String::from_str(value));
    assert(command_view(cmd@) =~= seq!["HSET"@, key@, field@, value@]);
    cmd
}

/// `GET /redis_hset/..`: success when the store answered 1.
pub fn redis_hset(reply: &RedisReply) -> (r: Reply)
    ensures
        is_one_reply(*reply) ==> r.status == 200 && r.body@ == "successfully hset\n"@,
        !is_one_reply(*reply) ==> r.status == 500 && r.body@ == Seq::<char>::empty(),
{
    success_or_failure(reply_is_one(reply), "successfully hset\n")
}

/// `GET /do_something`, given the outcome of the random action: `Nothing
/// happened.` on success, the action's error otherwise.
pub fn do_something_reply(outcome: Result<(), CustomError>) -> (r: Result<String, CustomError>)
    ensures
        outcome is Ok ==> (r matches Ok(s) && s@ == "Nothing happened."@),
        outcome matches Err(e) ==> r == Err::<String, CustomError>(e),
{
    match outcome {
        Ok(()) => Ok(String::from_str("Nothing happened.")),
        Err(e) => Err(e),
    }
}

/// `GET /do_something`: `Nothing happened.` when the random action succeeds,
/// its random error otherwise.
pub fn do_something() -> (r: Result<String, CustomError>)
    ensures
        r matches Ok(s) ==> s@ == "Nothing happened."@,
        r matches Err(e) ==> exists|n: int| 1 <= n < 5 && e == error_of_index(n),
{
    do_something_reply(do_something_random())
}

/// `GET /custom_error/{id}`: the error that the id selects; 1, 2 and 3 pick the
/// first three, any other id the fourth.
pub fn custom_error(id: i32) -> (e: CustomError)
    ensures
        e == error_of_index(id as int),
{
    match id {
        1 => CustomError::CustomOne,
        2 => CustomError::CustomTwo,
        3 => CustomError::CustomThree,
        _ => CustomError::CustomFour,
    }
}

/// The trace of the errors that `custom_error2` raises.
pub open spec fn custom_error2_trace() -> Seq<char> {
    "来自route_set custom_error2"@
}

/// `GET /custom_error2/{id}`: id 1 raises a system error (5000), id 2 a logic
/// error (4000), both with a trace; any other id a general error (3000) without one.
pub fn custom_error2(id: i32) -> (e: CommonError)
    ensures
        id == 1 ==> e is System && e.spec_code() == 5000 && e.spec_message()
            == "系统异常，这个异常一般来自其他地方抛出重新放到这里"@ && e.spec_trace() == Some(
            custom_error2_trace(),
        ),
        id == 2 ==> e is Logic && e.spec_code() == 4000 && e.spec_message()
            == "系统繁忙，请稍后重试"@ && e.spec_trace() == Some(custom_error2_trace()),
        id != 1 && id != 2 ==> e is General && e.spec_code() == 3000 && e.spec_message()
            == "密码错误"@ && e.spec_trace() == None::<Seq<char>>,
{
    match id {
        1 => CommonError::System(
            5000,
            String::from_str("系统异常，这个异常一般来自其他地方抛出重新放到这里"),
            Some(String::from_str("来自route_set custom_error2")),
        ),
        2 => CommonError::Logic(
            4000,
            String::from_str("系统繁忙，请稍后重试"),
            Some(String::from_str("来自route_set custom_error2")),
        ),
        _ => CommonError::General(3000, String::from_str("密码错误"), None),
    }
}

/// `POST /validate_test`: `暂时没用` when every field keeps its rule, otherwise a
/// logic error (4000) without a trace.
pub fn validate_test(data: &NeedValidData, phone: &PhoneRule) -> (r: Result<String, CommonError>)
    ensures
        data.broken_fields_with(phone.pattern()).len() == 0 ==> (r matches Ok(s) && s@
            == "暂时没用"@),
        data.broken_fields_with(phone.pattern()).len() > 0 ==> (r matches Err(e) && e is Logic
            && e.spec_code() == 4000 && e.spec_message() == "入口参数验证失败"@ && e.spec_trace()
            == None::<Seq<char>>),
{
    match data.validate(phone) {
        Ok(()) => Ok(String::from_str("暂时没用")),
        Err(_) => Err(CommonError::Logic(4000, String::from_str("入口参数验证失败"), None)),
    }
}

/// `GET /db_diesel/{id}`: the last row read, as JSON, or `没有数据` when none was read.
pub fn db_diesel(items: Vec<User>) -> (s: String)
    ensures
        items@.len() == 0 ==> s@ == "没有数据"@,
        items@.len() > 0 ==> s@ == user_json(
            items@.last().id as int,
            items@.last().name@,
            items@.last().age as int,
        ),
{
    let mut items = items;
    match items.pop() {
        Some(item) => item.to_json(),
        None => String::from_str("没有数据"),
    }
}

/// `GET /db_diesel_post/{name}/{age}`, given how the insert went: `插入数据成功`
/// once the row is in, otherwise the database's error text, answered as a bad request.
pub fn db_diesel_post_reply(inserted: Result<usize, String>) -> (r: Result<String, String>)
    ensures
        inserted is Ok ==> (r matches Ok(s) && s@ == "插入数据成功"@),
        inserted matches Err(m) ==> (r matches Err(e) && e@ == m@),
{
    match inserted {
        Ok(_) => Ok(String::from_str("插入数据成功")),
        Err(m) => Err(m),
    }
}

/// The method of a request, as `/test_lambda` tells them apart.
pub enum RequestMethod {
    Get,
    Post,
    Other,
}

/// `/test_lambda`: the status for the request's method: 200 for GET, 405 for
/// POST, 404 for any other.
pub fn test_lambda(method: RequestMethod) -> (status: u16)
    ensures
        status == match method {
            RequestMethod::Get => 200u16,
            RequestMethod::Post => 405u16,
            RequestMethod::Other => 404u16,
        },
{
    match method {
        RequestMethod::Get => 200,
        RequestMethod::Post => 405,
        RequestMethod::Other => 404,
    }
}

/// `GET /db_diesel_post/{name}/{age}`: the row to insert; the table assigns its id.
pub fn db_diesel_post(name: String, age: i32) -> (row: UserDo)
    ensures
        row.id == None::<i32>,
        row.name@ == name@,
        row.age == age,
{
    UserDo { id: None, name, age }
}

} // verus!
