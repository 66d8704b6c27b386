use nlem_formulary::cli::{run_mode, RunMode};
use nlem_formulary::db::{create_pool, ACQUIRE_TIMEOUT_SECS, MAX_CONNECTIONS};
use nlem_formulary::handlers::{
    get_drug_by_id, health_check, search_drugs, search_pattern, ApiError, DataAccessError,
    SearchQuery, SEARCH_LIMIT,
};
use nlem_formulary::models::Drug;
use nlem_formulary::routes::{create_router, Endpoint};

fn drug(id: i32, generic_name: &str) -> Drug {
    Drug {
        id,
        category_id: Some(1),
        generic_name: generic_name.to_string(),
        syn_name: None,
        detail: None,
        drug_type: None,
        dosage_forms: vec!["tablet".to_string()],
        ed_level: None,
        recommendations: None,
        conditions: None,
        warnings: None,
        notes: None,
        footnote: None,
        source_code: None,
    }
}

fn failure() -> DataAccessError {
    DataAccessError { detail: "connection refused".to_string() }
}

#[test]
fn health_check_says_ok() {
    assert_eq!(health_check().status, "OK");
    assert_eq!(health_check(), health_check());
}

#[test]
fn search_pattern_wraps_the_query_in_wildcards() {
    assert_eq!(search_pattern(&SearchQuery { q: "para".to_string() }), "%para%");
    assert_eq!(search_pattern(&SearchQuery { q: "a b".to_string() }), "%a b%");
}

#[test]
fn search_pattern_of_empty_query_matches_everything() {
    assert_eq!(search_pattern(&SearchQuery { q: String::new() }), "%%");
}

#[test]
fn search_pattern_takes_the_query_as_it_is() {
    assert_eq!(search_pattern(&SearchQuery { q: "50%_x".to_string() }), "%50%_x%");
}

#[test]
fn search_returns_the_rows_as_they_came() {
    let rows = vec![drug(2, "Aspirin"), drug(1, "Paracetamol")];
    assert_eq!(search_drugs(Ok(rows)), Ok(vec![drug(2, "Aspirin"), drug(1, "Paracetamol")]));
}

#[test]
fn search_with_no_match_is_an_empty_success() {
    assert_eq!(search_drugs(Ok(Vec::new())), Ok(Vec::new()));
}

#[test]
fn search_failure_is_an_internal_error() {
    assert_eq!(search_drugs(Err(failure())), Err(ApiError::Internal));
}

#[test]
fn lookup_of_a_missing_id_is_not_found() {
    assert_eq!(get_drug_by_id(Ok(None)), Err(ApiError::NotFound));
}

#[test]
fn lookup_of_an_existing_id_gives_that_drug() {
    assert_eq!(get_drug_by_id(Ok(Some(drug(42, "Aspirin")))), Ok(drug(42, "Aspirin")));
    assert_eq!(get_drug_by_id(Ok(Some(drug(42, "Aspirin")))).unwrap().id, 42);
}

#[test]
fn lookup_failure_is_an_internal_error() {
    assert_eq!(get_drug_by_id(Err(failure())), Err(ApiError::Internal));
}

#[test]
fn errors_map_to_their_status_codes() {
    assert_eq!(ApiError::NotFound.status_code(), 404);
    assert_eq!(ApiError::Internal.status_code(), 500);
}

#[test]
fn search_is_capped_at_one_hundred() {
    assert_eq!(SEARCH_LIMIT, 100);
}

#[test]
fn pool_is_bounded() {
    let settings = create_pool("postgres://localhost/nlem".to_string());
    assert_eq!(settings.database_url, "postgres://localhost/nlem");
    assert_eq!(settings.max_connections, 20);
    assert_eq!(settings.acquire_timeout_secs, 5);
    assert_eq!(MAX_CONNECTIONS, 20);
    assert_eq!(ACQUIRE_TIMEOUT_SECS, 5);
}

#[test]
fn router_serves_three_paths() {
    assert_eq!(
        create_router(),
        vec![Endpoint::HealthCheck, Endpoint::SearchDrugs, Endpoint::DrugById]
    );
    assert_eq!(Endpoint::HealthCheck.path(), "/");
    assert_eq!(Endpoint::SearchDrugs.path(), "/api/drugs/search");
    assert_eq!(Endpoint::DrugById.path(), "/api/drugs/:id");
}

#[test]
fn seed_argument_selects_the_loader() {
    let args = vec!["prog".to_string(), "seed".to_string()];
    assert_eq!(run_mode(&args), RunMode::Seed);
    let more = vec!["prog".to_string(), "seed".to_string(), "extra".to_string()];
    assert_eq!(run_mode(&more), RunMode::Seed);
}

#[test]
fn anything_else_starts_the_server() {
    assert_eq!(run_mode(&Vec::new()), RunMode::Serve);
    assert_eq!(run_mode(&vec!["prog".to_string()]), RunMode::Serve);
    assert_eq!(run_mode(&vec!["prog".to_string(), "Seed".to_string()]), RunMode::Serve);
    assert_eq!(run_mode(&vec!["prog".to_string(), "x".to_string(), "seed".to_string()]), RunMode::Serve);
}
