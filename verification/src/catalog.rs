//! The catalogue of challenges that a learner is shown.

use vstd::prelude::*;
use crate::lectures::Solution;

verus! {

/// The fixed texts of one challenge.
pub struct ChallengeInfo<'a> {
    pub id: u64,
    pub name: &'a str,
    pub title: &'a str,
    pub description: &'a str,
    pub hint: &'a str,
    /// The service that holds the defect and decides on its fix.
    pub service: &'a str,
    pub function: &'a str,
    /// Where the service takes requests to validate a fix.
    pub url: &'a str,
}

/// Where a fix is validated.
#[derive(Debug, Clone)]
pub struct EndpointInfo {
    pub service: String,
    pub url: String,
    pub method: String,
}

/// What a learner may read of a challenge's solution.
#[derive(Debug, Clone)]
pub struct ChallengeSolution {
    pub code: String,
    pub explanation: String,
    pub lecture: String,
}

/// A challenge as it is shown.
#[derive(Debug, Clone)]
pub struct Challenge {
    pub id: u64,
    pub name: String,
    pub title: String,
    pub description: String,
    pub hint: String,
    pub service: String,
    pub file: String,
    pub function: String,
    pub status: String,
    pub validation_endpoint: EndpointInfo,
    pub solution: ChallengeSolution,
}

/// A challenge as a mathematical value.
pub struct ChallengeView {
    pub id: u64,
    pub name: Seq<char>,
    pub title: Seq<char>,
    pub description: Seq<char>,
    pub hint: Seq<char>,
    pub service: Seq<char>,
    pub file: Seq<char>,
    pub function: Seq<char>,
    pub status: Seq<char>,
    pub endpoint_service: Seq<char>,
    pub endpoint_url: Seq<char>,
    pub endpoint_method: Seq<char>,
    pub code: Seq<char>,
    pub explanation: Seq<char>,
    pub lecture: Seq<char>,
}

impl View for Challenge {
    type V = ChallengeView;

    open spec fn view(&self) -> ChallengeView {
        ChallengeView {
            id: self.id,
            name: self.name@,
            title: self.title@,
            description: self.description@,
            hint: self.hint@,
            service: self.service@,
            file: self.file@,
            function: self.function@,
            status: self.status@,
            endpoint_service: self.validation_endpoint.service@,
            endpoint_url: self.validation_endpoint.url@,
            endpoint_method: self.validation_endpoint.method@,
            code: self.solution.code@,
            explanation: self.solution.explanation@,
            lecture: self.solution.lecture@,
        }
    }
}

/// How many challenges the catalogue holds. They are numbered from one.
pub const CHALLENGES: u64 = 4;

/// The fixed texts of the challenge with the number `id`.
pub open spec fn info_of(id: u64) -> ChallengeInfo<'static> {
    if id == 1 {
        ChallengeInfo {
            id,
            name: "async-io",
            title: "The Blocking Bottleneck",
            description: "The tank parameter validation process is using blocking I/O operations, causing performance issues during peak usage. This is causing the monitoring system to miss critical water quality changes.",
            hint: "The `get_tank_readings` function in `aqua-monitor` currently uses blocking I/O, which impacts performance. Your main tasks are to: 1. Convert the blocking file I/O operations to be asynchronous using a suitable runtime like Tokio. 2. Ensure that this asynchronous operation is properly instrumented for tracing. You'll need to create a tracing span and find an idiomatic way to associate it with the asynchronous task to accurately capture its execution.",
            service: "aqua-monitor",
            function: "get_tank_readings",
            url: "/api/challenges/1/validate",
        }
    } else if id == 2 {
        ChallengeInfo {
            id,
            name: "database-optimization",
            title: "The Slow Query",
            description: "The species search functionality is extremely slow when users search for partial names. Database queries are taking too long, especially for text searches.",
            hint: "The issue is with how text search is being performed in the database. Look at how case-sensitivity is handled in the SQL queries. For a performant solution, you'll need to enable a PostgreSQL extension and create appropriate indexes. This requires a **new database migration script**, as modifying existing ones is not best practice. PostgreSQL also offers operators for more efficient case-insensitive pattern matching.",
            service: "species-hub",
            function: "get_species",
            url: "/api/challenges/2/validate",
        }
    } else if id == 3 {
        ChallengeInfo {
            id,
            name: "memory-optimization",
            title: "String Allocation Optimization",
            description: "The analysis engine is using excessive memory, particularly when calculating status reports for multiple tanks. The issue seems to be with how strings are handled. A previous engineer started looking into optimizations and defined some helpful enums, but then went on holiday just before ShellCon... classic! It's up to you to finish the job.",
            hint: "The `get_analysis_result` function is creating too many String objects. To optimize it, look for the enums a previous engineer already defined for you in `main.rs`. Consider how to handle fixed recommendation strings efficiently too.",
            service: "aqua-brain",
            function: "get_analysis_result",
            url: "/api/challenges/3/validate",
        }
    } else {
        ChallengeInfo {
            id,
            name: "resource-leak",
            title: "The Leaky Connection",
            description: "The sensor status API is creating a new HTTP client for every request, causing excessive resource usage and potential memory leaks.",
            hint: "The `get_sensor_status` function in `aqua-monitor/src/challenges.rs` creates a new HTTP client for each request. Since this is an Axum handler, the best practice is to initialize a `reqwest::Client` once and store it in `aqua-monitor`'s `AppState`. Then, access this shared client via the `State` extractor in the handler. This avoids resource waste and improves performance.",
            service: "aqua-monitor",
            function: "get_sensor_status",
            url: "/api/challenges/4/validate",
        }
    }
}

/// The challenge that is made of fixed texts and a solution. Every
/// challenge lives in the same file of its service, starts out degraded and
/// is validated by a GET request to the service that holds it.
pub open spec fn challenge_of(
    info: ChallengeInfo,
    code: Seq<char>,
    explanation: Seq<char>,
    lecture: Seq<char>,
) -> ChallengeView {
    ChallengeView {
        id: info.id,
        name: info.name@,
        title: info.title@,
        description: info.description@,
        hint: info.hint@,
        service: info.service@,
        file: "src/challenges.rs"@,
        function: info.function@,
        status: "degraded"@,
        endpoint_service: info.service@,
        endpoint_url: info.url@,
        endpoint_method: "GET"@,
        code,
        explanation,
        lecture,
    }
}

/// Gives the fixed texts of the challenge with the number `id`, if there is
/// one.
pub fn info(id: u64) -> (r: Option<ChallengeInfo<'static>>)
    ensures
        r is Some == (1 <= id <= CHALLENGES),
        r matches Some(i) ==> i == info_of(id),
{
    if id == 1 {
        Some(
            ChallengeInfo {
                id,
                name: "async-io",
                title: "The Blocking Bottleneck",
                description: "The tank parameter validation process is using blocking I/O operations, causing performance issues during peak usage. This is causing the monitoring system to miss critical water quality changes.",
                hint: "The `get_tank_readings` function in `aqua-monitor` currently uses blocking I/O, which impacts performance. Your main tasks are to: 1. Convert the blocking file I/O operations to be asynchronous using a suitable runtime like Tokio. 2. Ensure that this asynchronous operation is properly instrumented for tracing. You'll need to create a tracing span and find an idiomatic way to associate it with the asynchronous task to accurately capture its execution.",
                service: "aqua-monitor",
                function: "get_tank_readings",
                url: "/api/challenges/1/validate",
            },
        )
    } else if id == 2 {
        Some(
            ChallengeInfo {
                id,
                name: "database-optimization",
                title: "The Slow Query",
                description: "The species search functionality is extremely slow when users search for partial names. Database queries are taking too long, especially for text searches.",
                hint: "The issue is with how text search is being performed in the database. Look at how case-sensitivity is handled in the SQL queries. For a performant solution, you'll need to enable a PostgreSQL extension and create appropriate indexes. This requires a **new database migration script**, as modifying existing ones is not best practice. PostgreSQL also offers operators for more efficient case-insensitive pattern matching.",
                service: "species-hub",
                function: "get_species",
                url: "/api/challenges/2/validate",
            },
        )
    } else if id == 3 {
        Some(
            ChallengeInfo {
                id,
                name: "memory-optimization",
                title: "String Allocation Optimization",
                description: "The analysis engine is using excessive memory, particularly when calculating status reports for multiple tanks. The issue seems to be with how strings are handled. A previous engineer started looking into optimizations and defined some helpful enums, but then went on holiday just before ShellCon... classic! It's up to you to finish the job.",
                hint: "The `get_analysis_result` function is creating too many String objects. To optimize it, look for the enums a previous engineer already defined for you in `main.rs`. Consider how to handle fixed recommendation strings efficiently too.",
                service: "aqua-brain",
                function: "get_analysis_result",
                url: "/api/challenges/3/validate",
            },
        )
    } else if id == 4 {
        Some(
            ChallengeInfo {
                id,
                name: "resource-leak",
                title: "The Leaky Connection",
                description: "The sensor status API is creating a new HTTP client for every request, causing excessive resource usage and potential memory leaks.",
                hint: "The `get_sensor_status` function in `aqua-monitor/src/challenges.rs` creates a new HTTP client for each request. Since this is an Axum handler, the best practice is to initialize a `reqwest::Client` once and store it in `aqua-monitor`'s `AppState`. Then, access this shared client via the `State` extractor in the handler. This avoids resource waste and improves performance.",
                service: "aqua-monitor",
                function: "get_sensor_status",
                url: "/api/challenges/4/validate",
            },
        )
    } else {
        None
    }
}

/// Puts a challenge together from its fixed texts, its solution and its
/// lecture.
pub fn challenge(info: &ChallengeInfo, solution: Solution, lecture: String) -> (c: Challenge)
    ensures
        c@ == challenge_of(*info, solution.code@, solution.explanation@, lecture@),
{
    Challenge {
        id: info.id,
        name: info.name.to_owned(),
        title: info.title.to_owned(),
        description: info.description.to_owned(),
        hint: info.hint.to_owned(),
        service: info.service.to_owned(),
        file: "src/challenges.rs".to_owned(),
        function: info.function.to_owned(),
        status: "degraded".to_owned(),
        validation_endpoint: EndpointInfo {
            service: info.service.to_owned(),
            url: info.url.to_owned(),
            method: "GET".to_owned(),
        },
        solution: ChallengeSolution {
            code: solution.code,
            explanation: solution.explanation,
            lecture,
        },
    }
}

/// Gives the challenge with the number `id`, if there is one.
pub fn get_challenge(id: u64, solution: Solution, lecture: String) -> (r: Option<Challenge>)
    ensures
        r is Some == (1 <= id <= CHALLENGES),
        r matches Some(c) ==> c@ == challenge_of(
            info_of(id),
            solution.code@,
            solution.explanation@,
            lecture@,
        ),
{
    match info(id) {
        Some(i) => Some(challenge(&i, solution, lecture)),
        None => None,
    }
}

} // verus!
