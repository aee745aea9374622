use irrigate::auth::{AuthFailure, AuthFlow};
use irrigate::client::{Error as ClientError, MeasurementDTO};
use irrigate::entity::{
    DbFailure, FullUserInfoDto, LoggedInUserDTO, LoginDTO, NewPlantDto, PlantDto, PlantProfileDto,
    UserInfoDto, UserLoginDto,
};
use irrigate::error::ErrorResponse;
use irrigate::morse::{morse_plan, morse_signals, MorseCode, MorseSignal, LARGE, SMALL};
use irrigate::gpio::Led;
use irrigate::plant_flow::{assert_user_owns_plant, watering_request, MeasurementFlow, PlantEdit, PlantEditFlow};
use irrigate::user_flow::{user_info_outcome, LoginFlow, RegisterFlow};

fn credentials(name: &str, password: &str) -> UserLoginDto {
    UserLoginDto { username: name.to_string(), password: password.to_string() }
}

fn bad_request(msg: &str) -> ErrorResponse {
    ErrorResponse::BadRequest(msg.to_string())
}

#[test]
fn login_refused_with_session() {
    let f = LoginFlow::start(credentials("ann", "pw"), Some("key".to_string()));
    assert!(matches!(f, LoginFlow::Finished(Err(e)) if e == bad_request("You are already logged in")));
}

#[test]
fn login_looks_up_user() {
    let f = LoginFlow::start(credentials("ann", "pw"), None);
    assert!(matches!(&f, LoginFlow::FindUser { username, password } if username == "ann" && password == "pw"));
}

#[test]
fn login_unknown_user() {
    let f = LoginFlow::start(credentials("ann", "pw"), None).on_user(Ok(None));
    assert!(matches!(f, LoginFlow::Finished(Err(e)) if e == bad_request("Invalid credentials")));
}

#[test]
fn login_store_failure() {
    let f = LoginFlow::start(credentials("ann", "pw"), None).on_user(Err(DbFailure));
    assert!(matches!(f, LoginFlow::Finished(Err(ErrorResponse::InternalServerError(())))));
}

fn stored_user(password: &str) -> FullUserInfoDto {
    FullUserInfoDto { id: 5, username: "ann".to_string(), password: bcrypt::hash(password, 4).unwrap() }
}

#[test]
fn login_wrong_password() {
    let f = LoginFlow::start(credentials("ann", "wrong"), None).on_user(Ok(Some(stored_user("right"))));
    assert!(matches!(f, LoginFlow::Finished(Err(e)) if e == bad_request("Invalid credentials")));
}

#[test]
fn login_malformed_hash() {
    let user = FullUserInfoDto { id: 5, username: "ann".to_string(), password: "plain".to_string() };
    let f = LoginFlow::start(credentials("ann", "plain"), None).on_user(Ok(Some(user)));
    assert!(matches!(f, LoginFlow::Finished(Err(e)) if e == bad_request("Invalid credentials")));
}

#[test]
fn login_right_password_stores_session() {
    let f = LoginFlow::start(credentials("ann", "right"), None).on_user(Ok(Some(stored_user("right"))));
    assert!(matches!(f, LoginFlow::StoreLogin { user_id: 5 }));
    let login = LoginDTO { id: 1, at: 1_700_000_000_000_000, user_id: 5, key: "k".to_string() };
    let done = f.on_stored(Ok(login));
    assert!(matches!(&done, LoginFlow::Finished(Ok(l)) if l.key == "k" && l.user_id == 5));
}

#[test]
fn login_session_store_failure() {
    let f = LoginFlow::StoreLogin { user_id: 5 }.on_stored(Err(DbFailure));
    assert!(matches!(f, LoginFlow::Finished(Err(ErrorResponse::InternalServerError(())))));
}

#[test]
fn register_refuses_taken_name() {
    let f = RegisterFlow::start(credentials("ann", "pw")).on_existing(Ok(Some(stored_user("x"))));
    assert!(matches!(f, RegisterFlow::Finished(Err(e)) if e == bad_request("User already exists")));
}

#[test]
fn register_store_failure() {
    let f = RegisterFlow::start(credentials("ann", "pw")).on_existing(Err(DbFailure));
    assert!(matches!(f, RegisterFlow::Finished(Err(ErrorResponse::InternalServerError(())))));
}

#[test]
fn register_hashes_password() {
    let f = RegisterFlow::start(credentials("ann", "secret")).on_existing(Ok(None));
    match &f {
        RegisterFlow::CreateUser { new_user } => {
            assert_eq!(new_user.username, "ann");
            assert_ne!(new_user.password, "secret");
            assert!(new_user.password.starts_with("$2b$10$"));
            assert_eq!(new_user.password.len(), 60);
            assert!(bcrypt::verify("secret", &new_user.password).unwrap());
        }
        _ => panic!("expected CreateUser"),
    }
}

#[test]
fn register_with_salt_is_bcrypt_of_that_salt() {
    let salt = [7u8; 16];
    let f = RegisterFlow::start(credentials("ann", "secret")).on_existing_with_salt(Ok(None), salt);
    let expected = bcrypt::hash_with_salt("secret", 10, salt).unwrap().to_string();
    assert!(matches!(&f, RegisterFlow::CreateUser { new_user } if new_user.password == expected));
}

#[test]
fn register_reports_created_user() {
    let f = RegisterFlow::CreateUser { new_user: credentials("ann", "h") }
        .on_created(Ok(FullUserInfoDto { id: 12, username: "ann".to_string(), password: "h".to_string() }));
    assert!(matches!(&f, RegisterFlow::Finished(Ok(UserInfoDto { id: 12, username })) if username == "ann"));
    let f = RegisterFlow::CreateUser { new_user: credentials("ann", "h") }.on_created(Err(DbFailure));
    assert!(matches!(f, RegisterFlow::Finished(Err(ErrorResponse::InternalServerError(())))));
}

#[test]
fn user_info_outcomes() {
    let r = user_info_outcome(Ok(Some(UserInfoDto { id: 2, username: "bo".to_string() })));
    assert!(matches!(r, Ok(UserInfoDto { id: 2, .. })));
    assert_eq!(user_info_outcome(Ok(None)).err(), Some(bad_request("No such user")));
    assert_eq!(user_info_outcome(Err(DbFailure)).err(), Some(ErrorResponse::InternalServerError(())));
}

fn user(id: i32) -> LoggedInUserDTO {
    LoggedInUserDTO { id, key: "k".to_string() }
}

#[test]
fn owner_check() {
    assert_eq!(assert_user_owns_plant(Ok(Some(3)), 3), Ok(()));
    assert_eq!(assert_user_owns_plant(Ok(Some(4)), 3), Err(ErrorResponse::Forbidden(())));
    assert_eq!(assert_user_owns_plant(Ok(None), 3), Err(ErrorResponse::Forbidden(())));
    assert_eq!(assert_user_owns_plant(Err(DbFailure), 3), Err(ErrorResponse::InternalServerError(())));
}

#[test]
fn delete_by_owner_goes_through() {
    let f = PlantEditFlow::delete_plant(9, &user(3));
    assert!(matches!(f, PlantEditFlow::CheckOwner { plant_id: 9, user_id: 3, edit: PlantEdit::Delete }));
    let f = f.on_owner(Ok(Some(3)));
    assert!(matches!(f, PlantEditFlow::Apply { target: 9, change: PlantEdit::Delete }));
    assert!(matches!(f.on_applied(Ok(())), PlantEditFlow::Finished(Ok(()))));
}

#[test]
fn update_by_other_user_is_forbidden() {
    let change = NewPlantDto { name: "fern".to_string(), profile_id: 1 };
    let f = PlantEditFlow::update_plant(9, change, &user(3)).on_owner(Ok(Some(4)));
    assert!(matches!(f, PlantEditFlow::Finished(Err(ErrorResponse::Forbidden(())))));
}

#[test]
fn update_by_owner_applies_change() {
    let change = NewPlantDto { name: "fern".to_string(), profile_id: 1 };
    let f = PlantEditFlow::update_plant(9, change, &user(3)).on_owner(Ok(Some(3)));
    assert!(matches!(&f, PlantEditFlow::Apply { target: 9, change: PlantEdit::Update(c) } if c.name == "fern"));
    assert!(matches!(f.on_applied(Err(DbFailure)), PlantEditFlow::Finished(Err(ErrorResponse::InternalServerError(())))));
}

#[test]
fn edit_of_unknown_plant_is_forbidden() {
    let f = PlantEditFlow::delete_plant(9, &user(3)).on_owner(Ok(None));
    assert!(matches!(f, PlantEditFlow::Finished(Err(ErrorResponse::Forbidden(())))));
    let f = PlantEditFlow::delete_plant(9, &user(3)).on_owner(Err(DbFailure));
    assert!(matches!(f, PlantEditFlow::Finished(Err(ErrorResponse::InternalServerError(())))));
}

fn profile(min: f32, max: f32) -> PlantProfileDto {
    PlantProfileDto { id: 1, name: "p".to_string(), max_moisture: max.to_bits(), min_moisture: min.to_bits() }
}

fn plant(moisture: f32) -> PlantDto {
    PlantDto {
        id: 4,
        name: "fern".to_string(),
        profile_id: 1,
        last_watered: None,
        uuid: "plant-4".to_string(),
        belongs_to_user_id: 3,
        soil_moisture: moisture.to_bits(),
    }
}

#[test]
fn watering_decisions() {
    let p = profile(30.0, 60.0);
    assert_eq!(watering_request(45.0f32.to_bits(), &p), None);
    assert_eq!(watering_request(30.0f32.to_bits(), &p), Some(true));
    assert_eq!(watering_request(12.5f32.to_bits(), &p), Some(true));
    assert_eq!(watering_request(60.0f32.to_bits(), &p), Some(false));
    assert_eq!(watering_request(75.0f32.to_bits(), &p), Some(false));
    assert_eq!(watering_request(f32::NAN.to_bits(), &p), Some(false));
}

#[test]
fn client_error_report_is_ignored() {
    let f = MeasurementFlow::update_moisture("plant-4".to_string(), &MeasurementDTO::Error(ClientError::HardwareError));
    assert!(matches!(f, MeasurementFlow::Finished(Ok(()))));
}

fn measurement(moisture: f32) -> MeasurementDTO {
    MeasurementDTO::Measurement { moisture: moisture.to_bits(), temperature: 25.0f32.to_bits(), humidity: 60.0f32.to_bits() }
}

#[test]
fn dry_plant_gets_watered() {
    let f = MeasurementFlow::update_moisture("plant-4".to_string(), &measurement(20.0));
    assert!(matches!(&f, MeasurementFlow::StoreMoisture { uuid, moisture } if uuid == "plant-4" && *moisture == 20.0f32.to_bits()));
    let f = f.on_stored(Ok(Some(plant(20.0))));
    assert!(matches!(&f, MeasurementFlow::FindProfile { plant } if plant.id == 4));
    let f = f.on_profile(Ok(Some(profile(30.0, 60.0))));
    assert!(matches!(&f, MeasurementFlow::Publish { request } if request.uuid == "plant-4" && request.set_active));
    assert!(matches!(f.on_published(Ok(())), MeasurementFlow::Finished(Ok(()))));
}

#[test]
fn wet_plant_gets_valve_closed() {
    let f = MeasurementFlow::check_for_watering(plant(80.0)).on_profile(Ok(Some(profile(30.0, 60.0))));
    assert!(matches!(&f, MeasurementFlow::Publish { request } if request.uuid == "plant-4" && !request.set_active));
    assert!(matches!(f.on_published(Err(())), MeasurementFlow::Finished(Err(ErrorResponse::InternalServerError(())))));
}

#[test]
fn plant_in_range_needs_nothing() {
    let f = MeasurementFlow::check_for_watering(plant(45.0)).on_profile(Ok(Some(profile(30.0, 60.0))));
    assert!(matches!(f, MeasurementFlow::Finished(Ok(()))));
}

#[test]
fn measurement_of_unknown_plant_or_profile() {
    let f = MeasurementFlow::update_moisture("x".to_string(), &measurement(1.0)).on_stored(Ok(None));
    assert!(matches!(f, MeasurementFlow::Finished(Ok(()))));
    let f = MeasurementFlow::update_moisture("x".to_string(), &measurement(1.0)).on_stored(Err(DbFailure));
    assert!(matches!(f, MeasurementFlow::Finished(Err(ErrorResponse::InternalServerError(())))));
    let f = MeasurementFlow::check_for_watering(plant(1.0)).on_profile(Ok(None));
    assert!(matches!(f, MeasurementFlow::Finished(Err(ErrorResponse::InternalServerError(())))));
    let f = MeasurementFlow::check_for_watering(plant(1.0)).on_profile(Err(DbFailure));
    assert!(matches!(f, MeasurementFlow::Finished(Err(ErrorResponse::InternalServerError(())))));
}

#[test]
fn auth_without_cookie() {
    assert!(matches!(AuthFlow::start(None), AuthFlow::Finished(Err(AuthFailure::Unauthorized))));
}

#[test]
fn auth_with_known_session() {
    let f = AuthFlow::start(Some("abc".to_string()));
    assert!(matches!(&f, AuthFlow::LookupKey { key } if key == "abc"));
    let f = f.on_lookup(Ok(Some(17)));
    assert!(matches!(&f, AuthFlow::Finished(Ok(LoggedInUserDTO { id: 17, key })) if key == "abc"));
}

#[test]
fn auth_with_unknown_session_or_failure() {
    let f = AuthFlow::start(Some("abc".to_string())).on_lookup(Ok(None));
    assert!(matches!(f, AuthFlow::Finished(Err(AuthFailure::Unauthorized))));
    let f = AuthFlow::start(Some("abc".to_string())).on_lookup(Err(DbFailure));
    assert!(matches!(f, AuthFlow::Finished(Err(AuthFailure::InternalServerError))));
}

#[test]
fn morse_code_symbols() {
    assert_eq!(MorseCode::new('.'), Some(MorseCode::DOT));
    assert_eq!(MorseCode::new('-'), Some(MorseCode::HYPHEN));
    assert_eq!(MorseCode::new('/'), Some(MorseCode::SLASH));
    assert_eq!(MorseCode::new('n'), None);
    assert_eq!(MorseCode::new(' '), None);
    assert_eq!(MorseCode::SLASH.led(), Led::Green);
    assert_eq!(MorseCode::DOT.led(), Led::Red);
    assert_eq!(MorseCode::HYPHEN.led(), Led::Red);
    assert_eq!(MorseCode::DOT.duration(), SMALL);
    assert_eq!(MorseCode::HYPHEN.duration(), LARGE);
    assert_eq!(MorseCode::SLASH.duration(), LARGE);
    assert_eq!((SMALL, LARGE), (50, 150));
}

#[test]
fn morse_signals_of_text() {
    assert_eq!(
        morse_signals(".- /x"),
        vec![MorseSignal::Flash(MorseCode::DOT), MorseSignal::Flash(MorseCode::HYPHEN), MorseSignal::Pause, MorseSignal::Flash(MorseCode::SLASH)]
    );
    assert_eq!(morse_signals(""), vec![]);
}

#[test]
fn morse_plan_of_message() {
    let (d, h, s) = (MorseSignal::Flash(MorseCode::DOT), MorseSignal::Flash(MorseCode::HYPHEN), MorseSignal::Flash(MorseCode::SLASH));
    let p = MorseSignal::Pause;
    // "so s" is "... --- / ..." in Morse.
    assert_eq!(
        morse_plan("So s"),
        vec![d, d, d, p, h, h, h, p, s, p, d, d, d, s]
    );
    assert_eq!(morse_plan(""), vec![s]);
    assert_eq!(morse_plan("é!"), vec![s]);
}

#[test]
fn registered_user_can_log_in() {
    let registered = RegisterFlow::start(credentials("ann", "s3cret")).on_existing(Ok(None));
    let stored = match registered {
        RegisterFlow::CreateUser { new_user } => new_user,
        _ => panic!("expected CreateUser"),
    };
    let user = FullUserInfoDto { id: 21, username: stored.username, password: stored.password };
    let f = LoginFlow::start(credentials("ann", "s3cret"), None).on_user(Ok(Some(user)));
    assert!(matches!(f, LoginFlow::StoreLogin { user_id: 21 }));
}
