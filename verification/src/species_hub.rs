//! The rules of the species catalogue: which searches are accepted, what a
//! search asks of the data store, how a species is fed, and how a failure
//! is answered.

use vstd::prelude::*;
use vstd::utf8::encode_utf8;
use crate::decimal::{decimal, i32_to_decimal};
use crate::text::{push_text, same_text};

verus! {

/// What can go wrong in the species catalogue.
#[derive(Debug, Clone)]
pub enum ApiError {
    /// The data store failed; the text is what it said.
    Database(String),
    SpeciesNotFound(String),
    InvalidQuery(String),
    ScheduleError(String),
    InternalError(String),
}

impl ApiError {
    /// The HTTP status that answers the error.
    pub open spec fn status(self) -> u16 {
        match self {
            ApiError::Database(_) => 500,
            ApiError::SpeciesNotFound(_) => 404,
            ApiError::InvalidQuery(_) => 400,
            ApiError::ScheduleError(_) => 422,
            ApiError::InternalError(_) => 500,
        }
    }

    /// The message that answers the error. What the data store said is not
    /// passed on.
    pub open spec fn response_text(self) -> Seq<char> {
        match self {
            ApiError::Database(_) => "Database error"@,
            ApiError::SpeciesNotFound(id) => "Species not found: "@ + id@,
            ApiError::InvalidQuery(msg) => "Invalid query: "@ + msg@,
            ApiError::ScheduleError(msg) => "Feeding schedule error: "@ + msg@,
            ApiError::InternalError(msg) => msg@,
        }
    }

    /// The error in words, as it is logged.
    pub open spec fn text(self) -> Seq<char> {
        match self {
            ApiError::Database(e) => "Database error: "@ + e@,
            ApiError::SpeciesNotFound(id) => "Species not found: "@ + id@,
            ApiError::InvalidQuery(msg) => "Invalid query parameter: "@ + msg@,
            ApiError::ScheduleError(msg) => "Feeding schedule error: "@ + msg@,
            ApiError::InternalError(msg) => "Internal server error: "@ + msg@,
        }
    }

    /// The HTTP status that answers the error.
    pub fn status_code(&self) -> (code: u16)
        ensures
            code == self.status(),
    {
        match self {
            ApiError::Database(_) => 500,
            ApiError::SpeciesNotFound(_) => 404,
            ApiError::InvalidQuery(_) => 400,
            ApiError::ScheduleError(_) => 422,
            ApiError::InternalError(_) => 500,
        }
    }

    /// The message that answers the error.
    pub fn error_message(&self) -> (m: String)
        ensures
            m@ == self.response_text(),
    {
        match self {
            ApiError::Database(_) => "Database error".to_owned(),
            ApiError::SpeciesNotFound(id) => "Species not found: ".to_owned().concat(id.as_str()),
            ApiError::InvalidQuery(msg) => "Invalid query: ".to_owned().concat(msg.as_str()),
            ApiError::ScheduleError(msg) => "Feeding schedule error: ".to_owned().concat(
                msg.as_str(),
            ),
            ApiError::InternalError(msg) => msg.clone(),
        }
    }

    /// The error in words.
    pub fn to_string(&self) -> (m: String)
        ensures
            m@ == self.text(),
    {
        match self {
            ApiError::Database(e) => "Database error: ".to_owned().concat(e.as_str()),
            ApiError::SpeciesNotFound(id) => "Species not found: ".to_owned().concat(id.as_str()),
            ApiError::InvalidQuery(msg) => "Invalid query parameter: ".to_owned().concat(
                msg.as_str(),
            ),
            ApiError::ScheduleError(msg) => "Feeding schedule error: ".to_owned().concat(
                msg.as_str(),
            ),
            ApiError::InternalError(msg) => "Internal server error: ".to_owned().concat(
                msg.as_str(),
            ),
        }
    }
}

/// A search of the species table: the statement, and the values that go in
/// the place of `$1` and `$2`.
#[derive(Debug, Clone)]
pub struct SpeciesSearch {
    pub sql: String,
    pub binds: Vec<String>,
}

/// A search term is too short: it takes fewer than two bytes in UTF-8.
pub open spec fn too_short(term: Option<Seq<char>>) -> bool {
    term matches Some(t) && encode_utf8(t).len() < 2
}

/// The value that finds `term` anywhere in a column.
pub open spec fn anywhere(term: Seq<char>) -> Seq<char> {
    "%"@ + term + "%"@
}

/// The statement of a search. Without a term the first twenty species are
/// listed; with one, the first fifty that match, by name.
pub open spec fn search_sql(by_name: bool, by_scientific_name: bool) -> Seq<char> {
    "SELECT * FROM species WHERE 1=1"@ + (if by_name {
        " AND name ILIKE $1"@
    } else {
        Seq::empty()
    }) + (if !by_scientific_name {
        Seq::empty()
    } else if by_name {
        " AND scientific_name ILIKE $2"@
    } else {
        " AND scientific_name ILIKE $1"@
    }) + (if by_name || by_scientific_name {
        " ORDER BY name LIMIT 50"@
    } else {
        " LIMIT 20"@
    })
}

/// The values of a search, in the order of their places.
pub open spec fn search_binds(name: Option<Seq<char>>, scientific_name: Option<Seq<char>>) -> Seq<
    Seq<char>,
> {
    (match name {
        Some(n) => seq![anywhere(n)],
        None => Seq::empty(),
    }) + (match scientific_name {
        Some(s) => seq![anywhere(s)],
        None => Seq::empty(),
    })
}

/// The views of two optional terms.
pub open spec fn term_view(term: Option<&str>) -> Option<Seq<char>> {
    match term {
        Some(t) => Some(t@),
        None => None,
    }
}

/// Turns the terms of a request into a search.
///
/// A term of fewer than two bytes is refused, the name before the
/// scientific name. Otherwise the search asks for each term that is given,
/// anywhere in its column and whatever the case of the letters.
pub fn species_search(name: Option<&str>, scientific_name: Option<&str>) -> (r: Result<
    SpeciesSearch,
    ApiError,
>)
    ensures
        too_short(term_view(name)) ==> (r matches Err(ApiError::InvalidQuery(m)) && m@
            == "Name search term must be at least 2 characters"@),
        !too_short(term_view(name)) && too_short(term_view(scientific_name)) ==> (r matches Err(
            ApiError::InvalidQuery(m),
        ) && m@ == "Scientific name search term must be at least 2 characters"@),
        !too_short(term_view(name)) && !too_short(term_view(scientific_name)) ==> (r matches Ok(s)
            && s.sql@ == search_sql(name is Some, scientific_name is Some) && s.binds.deep_view()
            == search_binds(term_view(name), term_view(scientific_name))),
{
    if let Some(n) = name {
        if n.as_bytes().len() < 2 {
            return Err(
                ApiError::InvalidQuery("Name search term must be at least 2 characters".to_owned()),
            );
        }
    }
    if let Some(s) = scientific_name {
        if s.as_bytes().len() < 2 {
            return Err(
                ApiError::InvalidQuery(
                    "Scientific name search term must be at least 2 characters".to_owned(),
                ),
            );
        }
    }
    let mut sql = "SELECT * FROM species WHERE 1=1".to_owned();
    let mut binds: Vec<String> = Vec::new();
    let ghost nothing = Seq::<char>::empty();
    match name {
        Some(n) => {
            sql = sql.concat(" AND name ILIKE $1");
            let value = "%".to_owned().concat(n).concat("%");
            push_text(&mut binds, value.as_str());
        },
        None => {
            assert(sql@ + nothing =~= sql@);
        },
    }
    let ghost one = binds.deep_view();
    match scientific_name {
        Some(s) => {
            if name.is_some() {
                sql = sql.concat(" AND scientific_name ILIKE $2");
            } else {
                sql = sql.concat(" AND scientific_name ILIKE $1");
            }
            let value = "%".to_owned().concat(s).concat("%");
            push_text(&mut binds, value.as_str());
            assert(binds.deep_view() =~= one + seq![anywhere(s@)]);
        },
        None => {
            assert(sql@ + nothing =~= sql@);
            assert(binds.deep_view() =~= one + Seq::<Seq<char>>::empty());
        },
    }
    if name.is_some() || scientific_name.is_some() {
        sql = sql.concat(" ORDER BY name LIMIT 50");
    } else {
        sql = sql.concat(" LIMIT 20");
    }
    Ok(SpeciesSearch { sql, binds })
}

/// The error for a species that the data store does not hold.
pub fn species_not_found(id: i32) -> (e: ApiError)
    ensures
        e matches ApiError::SpeciesNotFound(m) && m@ == "Species with ID "@ + decimal(id as int)
            + " not found"@,
{
    ApiError::SpeciesNotFound(
        "Species with ID ".to_owned().concat(i32_to_decimal(id).as_str()).concat(" not found"),
    )
}

/// Accepts the number of a species if it is positive.
pub fn check_species_id(id: i32) -> (r: Result<(), ApiError>)
    ensures
        id > 0 ==> r is Ok,
        id <= 0 ==> (r matches Err(ApiError::InvalidQuery(m)) && m@ == "Invalid species ID: "@
            + decimal(id as int)),
{
    if id <= 0 {
        Err(
            ApiError::InvalidQuery(
                "Invalid species ID: ".to_owned().concat(i32_to_decimal(id).as_str()),
            ),
        )
    } else {
        Ok(())
    }
}

/// The kinds of tank that change how much a species is fed.
#[derive(Debug, Clone, Copy, PartialEq, Eq, Structural)]
pub enum TankKind {
    /// A reef tank: less food.
    Reef,
    /// A planted tank: more food.
    Planted,
    /// A brackish tank: slightly less food.
    Brackish,
    /// Any other tank, or none: the usual amount.
    Other,
}

/// How a species is fed, but for the amount, which the caller works out
/// from the kind of tank.
#[derive(Debug, Clone)]
pub struct FeedingPlan {
    pub species_id: i32,
    pub feeding_times: Vec<String>,
    pub food_type: String,
    pub tank: TankKind,
}

/// The food that a diet asks for.
pub open spec fn usual_food(diet_type: Seq<char>) -> Seq<char> {
    if diet_type == "carnivore"@ {
        "bloodworms"@
    } else if diet_type == "herbivore"@ {
        "algae wafers"@
    } else if diet_type == "filter feeder"@ {
        "phytoplankton"@
    } else {
        "flake food"@
    }
}

/// The food of a plan: a diet of the caller's own choice, else the usual
/// food of the species' diet.
pub open spec fn food_of(diet_type: Seq<char>, custom_diet: Option<Seq<char>>) -> Seq<char> {
    match custom_diet {
        Some(d) => d,
        None => usual_food(diet_type),
    }
}

/// The times of day at which a diet is fed.
pub open spec fn times_of(diet_type: Seq<char>) -> Seq<Seq<char>> {
    if diet_type == "carnivore"@ {
        seq!["08:00"@, "20:00"@]
    } else if diet_type == "herbivore"@ {
        seq!["08:00"@, "13:00"@, "18:00"@]
    } else if diet_type == "filter feeder"@ {
        seq!["06:00"@]
    } else {
        seq!["09:00"@, "17:00"@]
    }
}

/// The kind of a tank by its type.
pub open spec fn kind_of(tank_type: Option<Seq<char>>) -> TankKind {
    match tank_type {
        Some(t) => if t == "reef"@ {
            TankKind::Reef
        } else if t == "planted"@ {
            TankKind::Planted
        } else if t == "brackish"@ {
            TankKind::Brackish
        } else {
            TankKind::Other
        },
        None => TankKind::Other,
    }
}

/// Plans the feeding of a species from its diet, the caller's wishes and
/// the type of the tank.
pub fn calculate_feeding_schedule(
    species_id: i32,
    diet_type: &str,
    custom_diet: Option<&str>,
    tank_type: Option<&str>,
) -> (plan: FeedingPlan)
    ensures
        plan.species_id == species_id,
        plan.food_type@ == food_of(diet_type@, term_view(custom_diet)),
        plan.feeding_times.deep_view() == times_of(diet_type@),
        plan.tank == kind_of(term_view(tank_type)),
{
    let carnivore = same_text(diet_type, "carnivore");
    let herbivore = same_text(diet_type, "herbivore");
    let filter_feeder = same_text(diet_type, "filter feeder");
    let food_type = match custom_diet {
        Some(d) => d.to_owned(),
        None => if carnivore {
            "bloodworms".to_owned()
        } else if herbivore {
            "algae wafers".to_owned()
        } else if filter_feeder {
            "phytoplankton".to_owned()
        } else {
            "flake food".to_owned()
        },
    };
    let mut feeding_times: Vec<String> = Vec::new();
    if carnivore {
        push_text(&mut feeding_times, "08:00");
        push_text(&mut feeding_times, "20:00");
    } else if herbivore {
        push_text(&mut feeding_times, "08:00");
        push_text(&mut feeding_times, "13:00");
        push_text(&mut feeding_times, "18:00");
    } else if filter_feeder {
        push_text(&mut feeding_times, "06:00");
    } else {
        push_text(&mut feeding_times, "09:00");
        push_text(&mut feeding_times, "17:00");
    }
    assert(feeding_times.deep_view() =~= times_of(diet_type@));
    let tank = match tank_type {
        Some(t) => if same_text(t, "reef") {
            TankKind::Reef
        } else if same_text(t, "planted") {
            TankKind::Planted
        } else if same_text(t, "brackish") {
            TankKind::Brackish
        } else {
            TankKind::Other
        },
        None => TankKind::Other,
    };
    FeedingPlan { species_id, feeding_times, food_type, tank }
}

} // verus!
