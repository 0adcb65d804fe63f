//! The staff application forms: the positions that can be applied for and
//! the questions that each application and the interview ask.

use vstd::prelude::*;
use vstd::string::*;
use crate::text::{integer, integer_text, texts};

verus! {

/// One question of a form.
#[derive(Clone, Debug, PartialEq, Eq)]
pub struct StaffAppQuestion {
    pub id: String,
    pub question: String,
    pub para: String,
    pub placeholder: String,
}

/// One position that can be applied for.
#[derive(Clone, Debug, PartialEq, Eq)]
pub struct StaffPosition {
    pub open: bool,
    pub name: String,
    pub info: String,
    pub questions: Vec<StaffAppQuestion>,
}

/// The positions and their forms.
#[derive(Clone, Debug, PartialEq, Eq)]
pub struct StaffAppData {
    /// The ids of the positions.
    pub positions: Vec<String>,
    pub staff: StaffPosition,
    pub dev: StaffPosition,
}

pub struct QuestionView {
    pub id: Seq<char>,
    pub question: Seq<char>,
    pub para: Seq<char>,
    pub placeholder: Seq<char>,
}

pub struct PositionView {
    pub open: bool,
    pub name: Seq<char>,
    pub info: Seq<char>,
    pub questions: Seq<QuestionView>,
}

pub struct AppDataView {
    pub positions: Seq<Seq<char>>,
    pub staff: PositionView,
    pub dev: PositionView,
}

impl View for StaffAppQuestion {
    type V = QuestionView;

    open spec fn view(&self) -> QuestionView {
        QuestionView {
            id: self.id@,
            question: self.question@,
            para: self.para@,
            placeholder: self.placeholder@,
        }
    }
}

/// The questions that a list of questions stands for.
pub open spec fn question_rows(v: Seq<StaffAppQuestion>) -> Seq<QuestionView> {
    v.map_values(|q: StaffAppQuestion| q@)
}

impl View for StaffPosition {
    type V = PositionView;

    open spec fn view(&self) -> PositionView {
        PositionView {
            open: self.open,
            name: self.name@,
            info: self.info@,
            questions: question_rows(self.questions@),
        }
    }
}

impl View for StaffAppData {
    type V = AppDataView;

    open spec fn view(&self) -> AppDataView {
        AppDataView { positions: texts(self.positions@), staff: self.staff@, dev: self.dev@ }
    }
}

pub open spec fn question_view(
    id: Seq<char>,
    question: Seq<char>,
    para: Seq<char>,
    placeholder: Seq<char>,
) -> QuestionView {
    QuestionView { id, question, para, placeholder }
}

fn new_question(id: &str, question: &str, para: &str, placeholder: &str) -> (out: StaffAppQuestion)
    ensures
        out@ == question_view(id@, question@, para@, placeholder@),
{
    StaffAppQuestion {
        id: String::from_str(id),
        question: String::from_str(question),
        para: String::from_str(para),
        placeholder: String::from_str(placeholder),
    }
}

/// The questions of the interview.
pub open spec fn interview_questions() -> Seq<QuestionView> {
    seq![
        question_view("motive"@, "Why did you apply for this role?"@, "Why did you apply for this role? Be specific. We want to know how you can help Infinity Bot List and why you wish to"@, "I applied because..."@),
        question_view("team-player"@, "What is a scenario in which you had to be a team player?"@, "What is a scenario in which you had to be a team player? We want to know that you can collaborate effectively with us."@, "I had to..."@),
        question_view("some-work"@, "What is some of the work you have done? Can you share some links with us?"@, "What is some of the work you have done? Can you share some links with us? We want to see your finest works"@, "Some work I did..."@),
        question_view("about-you"@, "Tell us a little about yourself"@, "Tell us a little about yourself. Its that simple!"@, "I am..."@),
    ]
}

/// The questions of an application to the staff team.
pub open spec fn staff_questions() -> Seq<QuestionView> {
    seq![
        question_view("experience"@, "Past server experience"@, "Tell us any experience you have working for other servers or bot lists."@, "I have worked at..."@),
        question_view("strengths"@, "List some of your strengths"@, "Tell us a little bit about yourself."@, "I am always online and active..."@),
        question_view("situations"@, "Situation Examples"@, "How would you handle: Mass Pings, Nukes and Raids etc."@, "I would handle it by..."@),
        question_view("reason"@, "Why do you want to join the staff team?"@, "Why do you want to join the staff team? Be specific"@, "I want to join the staff team because..."@),
        question_view("other"@, "Anything else you want to add?"@, "Anything else you want to add?"@, "Just state anything that doesn't hit anywhere else"@),
    ]
}

/// The questions of an application to the dev team.
pub open spec fn dev_questions() -> Seq<QuestionView> {
    seq![
        question_view("experience"@, "Do you have experience in Javascript, Rust and/or Golang. Give examples of projects/code you have written"@, "Do you have experience in Javascript, Rust and/or Golang. Give examples of projects/code you have written."@, "I have worked on..."@),
        question_view("strengths"@, "What are your strengths in coding Javascript, Rust and/or Golang."@, "What are your strengths in coding Javascript, Rust and/or Golang."@, "I am good at..."@),
        question_view("db"@, "Do you have Exprience with PostgreSQL"@, "Do you have Exprience with PostgreSQL"@, "I have used PostgreSQL for..."@),
        question_view("reason"@, "Why do you want to join the dev team?"@, "Why do you want to join the dev team? Be specific"@, "I want to join the dev team because..."@),
    ]
}

/// The positions that can be applied for, with their forms.
pub open spec fn apps() -> AppDataView {
    AppDataView {
        positions: seq!["staff"@, "dev"@],
        staff: PositionView {
            open: true,
            name: "Staff Team"@,
            info: "Join the Infinity Staff Team and help us Approve, Deny and Certify Discord Bots. \n\nWe are a welcoming and laid back team who is always willing to give new people an opportunity!"@,
            questions: staff_questions(),
        },
        dev: PositionView {
            open: true,
            name: "Dev Team"@,
            info: "Join our Dev Team and help us update, manage and maintain all of the Infinity Services!\n            \nExperience in PostgreSQL and at least one of the below languages is required:\n\n- Rust\n- JavaScript\n- Go\n"@,
            questions: dev_questions(),
        },
    }
}

/// The questions of the interview.
pub fn get_interview_questions() -> (out: Vec<StaffAppQuestion>)
    ensures
        question_rows(out@) == interview_questions(),
{
    let out = vec![
        new_question("motive", "Why did you apply for this role?", "Why did you apply for this role? Be specific. We want to know how you can help Infinity Bot List and why you wish to", "I applied because..."),
        new_question("team-player", "What is a scenario in which you had to be a team player?", "What is a scenario in which you had to be a team player? We want to know that you can collaborate effectively with us.", "I had to..."),
        new_question("some-work", "What is some of the work you have done? Can you share some links with us?", "What is some of the work you have done? Can you share some links with us? We want to see your finest works", "Some work I did..."),
        new_question("about-you", "Tell us a little about yourself", "Tell us a little about yourself. Its that simple!", "I am..."),
    ];
    assert(question_rows(out@) =~= interview_questions());
    out
}

/// The positions that can be applied for, with their forms.
pub fn get_apps() -> (out: StaffAppData)
    ensures
        out@ == apps(),
{
    let positions = vec![String::from_str("staff"), String::from_str("dev")];
    assert(texts(positions@) =~= seq!["staff"@, "dev"@]);
    let staff = vec![
        new_question("experience", "Past server experience", "Tell us any experience you have working for other servers or bot lists.", "I have worked at..."),
        new_question("strengths", "List some of your strengths", "Tell us a little bit about yourself.", "I am always online and active..."),
        new_question("situations", "Situation Examples", "How would you handle: Mass Pings, Nukes and Raids etc.", "I would handle it by..."),
        new_question("reason", "Why do you want to join the staff team?", "Why do you want to join the staff team? Be specific", "I want to join the staff team because..."),
        new_question("other", "Anything else you want to add?", "Anything else you want to add?", "Just state anything that doesn't hit anywhere else"),
    ];
    assert(question_rows(staff@) =~= staff_questions());
    let dev = vec![
        new_question("experience", "Do you have experience in Javascript, Rust and/or Golang. Give examples of projects/code you have written", "Do you have experience in Javascript, Rust and/or Golang. Give examples of projects/code you have written.", "I have worked on..."),
        new_question("strengths", "What are your strengths in coding Javascript, Rust and/or Golang.", "What are your strengths in coding Javascript, Rust and/or Golang.", "I am good at..."),
        new_question("db", "Do you have Exprience with PostgreSQL", "Do you have Exprience with PostgreSQL", "I have used PostgreSQL for..."),
        new_question("reason", "Why do you want to join the dev team?", "Why do you want to join the dev team? Be specific", "I want to join the dev team because..."),
    ];
    assert(question_rows(dev@) =~= dev_questions());
    StaffAppData {
        positions,
        staff: StaffPosition {
            open: true,
            name: String::from_str("Staff Team"),
            info: String::from_str("Join the Infinity Staff Team and help us Approve, Deny and Certify Discord Bots. \n\nWe are a welcoming and laid back team who is always willing to give new people an opportunity!"),
            questions: staff,
        },
        dev: StaffPosition {
            open: true,
            name: String::from_str("Dev Team"),
            info: String::from_str("Join our Dev Team and help us update, manage and maintain all of the Infinity Services!\n            \nExperience in PostgreSQL and at least one of the below languages is required:\n\n- Rust\n- JavaScript\n- Go\n"),
            questions: dev,
        },
    }
}

/// One application as the database holds it.
#[derive(Clone, Debug, PartialEq, Eq)]
pub struct StaffAppRow {
    pub user_id: String,
    pub created_at: String,
    pub state: String,
    pub answers: String,
    pub position: String,
    /// The ids of the staff members in favour.
    pub likes: Vec<i64>,
    /// The ids of the staff members against.
    pub dislikes: Vec<i64>,
}

/// One application as it is handed out.
#[derive(Clone, Debug, PartialEq, Eq)]
pub struct StaffAppResponse {
    pub user_id: String,
    pub created_at: String,
    pub state: String,
    pub answers: String,
    pub position: String,
    pub likes: Vec<String>,
    pub dislikes: Vec<String>,
}

pub struct ResponseView {
    pub user_id: Seq<char>,
    pub created_at: Seq<char>,
    pub state: Seq<char>,
    pub answers: Seq<char>,
    pub position: Seq<char>,
    pub likes: Seq<Seq<char>>,
    pub dislikes: Seq<Seq<char>>,
}

impl View for StaffAppResponse {
    type V = ResponseView;

    open spec fn view(&self) -> ResponseView {
        ResponseView {
            user_id: self.user_id@,
            created_at: self.created_at@,
            state: self.state@,
            answers: self.answers@,
            position: self.position@,
            likes: texts(self.likes@),
            dislikes: texts(self.dislikes@),
        }
    }
}

/// The ids of a list, each written in base ten.
pub open spec fn id_texts(ids: Seq<i64>) -> Seq<Seq<char>> {
    ids.map_values(|id: i64| integer_text(id as int))
}

/// An application as it is handed out: the row, with every id as text.
pub open spec fn response_of(row: StaffAppRow) -> ResponseView {
    ResponseView {
        user_id: row.user_id@,
        created_at: row.created_at@,
        state: row.state@,
        answers: row.answers@,
        position: row.position@,
        likes: id_texts(row.likes@),
        dislikes: id_texts(row.dislikes@),
    }
}

/// The applications that a list of applications stands for.
pub open spec fn response_rows(v: Seq<StaffAppResponse>) -> Seq<ResponseView> {
    v.map_values(|r: StaffAppResponse| r@)
}

/// Writes every id of a list in base ten.
fn write_ids(ids: &Vec<i64>) -> (out: Vec<String>)
    ensures
        texts(out@) == id_texts(ids@),
{
    let mut out: Vec<String> = Vec::new();
    let mut i: usize = 0;
    while i < ids.len()
        invariant
            i <= ids.len(),
            out.len() == i,
            forall|j: int| 0 <= j < i ==> (#[trigger] out@[j])@ == integer_text(ids@[j] as int),
        decreases ids.len() - i,
    {
        out.push(integer(ids[i]));
        i += 1;
    }
    assert(texts(out@) =~= id_texts(ids@));
    out
}

/// The applications that were handed in, in the form in which they are
/// handed out, in the order of the rows.
pub fn get_made_apps(rows: &Vec<StaffAppRow>) -> (out: Vec<StaffAppResponse>)
    ensures
        response_rows(out@) == rows@.map_values(|r: StaffAppRow| response_of(r)),
{
    let mut out: Vec<StaffAppResponse> = Vec::new();
    let mut i: usize = 0;
    while i < rows.len()
        invariant
            i <= rows.len(),
            out.len() == i,
            forall|j: int| 0 <= j < i ==> (#[trigger] out@[j])@ == response_of(rows@[j]),
        decreases rows.len() - i,
    {
        let row = &rows[i];
        out.push(
            StaffAppResponse {
                user_id: row.user_id.clone(),
                created_at: row.created_at.clone(),
                state: row.state.clone(),
                answers: row.answers.clone(),
                position: row.position.clone(),
                likes: write_ids(&row.likes),
                dislikes: write_ids(&row.dislikes),
            },
        );
        i += 1;
    }
    assert(response_rows(out@) =~= rows@.map_values(|r: StaffAppRow| response_of(r)));
    out
}

} // verus!
