use vstd::prelude::*;
use vstd::string::to_string_from_display_ensures;

verus! {

/// The error type of `sea_orm`, carried through unchanged.
#[verifier::external_type_specification]
#[verifier::external_body]
pub struct ExDbErr(sea_orm::DbErr);

/// Errors of the application: a storage failure, a value that could not be
/// parsed, or a request that breaks a rule of the board.
#[derive(Debug)]
pub enum AppErr {
    SeaOrm(sea_orm::DbErr),
    Parse(String),
    Validation(String),
}

impl AppErr {
    /// The message shown for this error: its kind, a colon, and its detail.
    pub fn to_string(&self) -> (r: String)
        ensures
            match self {
                AppErr::SeaOrm(e) => exists|t: String|
                    #[trigger] to_string_from_display_ensures::<sea_orm::DbErr>(e, t)
                        && r@ == "database error: "@ + t@,
                AppErr::Parse(m) => r@ == "parse error: "@ + m@,
                AppErr::Validation(m) => r@ == "validation error: "@ + m@,
            },
    {
        match self {
            AppErr::SeaOrm(e) => {
                let detail = e.to_string();
                let mut r = String::from_str("database error: ");
                r.append(detail.as_str());
                assert(to_string_from_display_ensures::<sea_orm::DbErr>(e, detail));
                r
            },
            AppErr::Parse(m) => {
                let mut r = String::from_str("parse error: ");
                r.append(m.as_str());
                r
            },
            AppErr::Validation(m) => {
                let mut r = String::from_str("validation error: ");
                r.append(m.as_str());
                r
            },
        }
    }
}

impl From<sea_orm::DbErr> for AppErr {
    fn from(e: sea_orm::DbErr) -> (r: AppErr) {
        AppErr::SeaOrm(e)
    }
}

impl vstd::std_specs::convert::FromSpecImpl<sea_orm::DbErr> for AppErr {
    open spec fn obeys_from_spec() -> bool {
        true
    }

    open spec fn from_spec(e: sea_orm::DbErr) -> AppErr {
        AppErr::SeaOrm(e)
    }
}

} // verus!
