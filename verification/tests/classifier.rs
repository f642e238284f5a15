use personal_utils::crawlers::{find_credit_type, CreditType};

#[test]
fn empty_title_is_other() {
    assert_eq!(find_credit_type(""), CreditType::Other);
}

#[test]
fn title_without_keyword_is_other() {
    assert_eq!(find_credit_type("Кредит на всё"), CreditType::Other);
    assert_eq!(find_credit_type("автокредит"), CreditType::Other);
    assert_eq!(find_credit_type("Auto loan"), CreditType::Other);
}

#[test]
fn same_title_same_category() {
    let title = "Ипотека для молодых семей";
    assert_eq!(find_credit_type(title), find_credit_type(title));
    assert_eq!(find_credit_type(title), CreditType::Mortgage);
}

#[test]
fn keyword_gives_auto() {
    assert_eq!(find_credit_type("«Автокредит» на выгодных условиях"), CreditType::Auto);
}

#[test]
fn keyword_gives_mortgage() {
    assert_eq!(find_credit_type("«Ипотека» на выгодных условиях"), CreditType::Mortgage);
}

#[test]
fn keyword_gives_micro() {
    assert_eq!(find_credit_type("«Микрокредит» на выгодных условиях"), CreditType::Micro);
    assert_eq!(find_credit_type("«Микрозайм» на выгодных условиях"), CreditType::Micro);
}

#[test]
fn keyword_gives_education() {
    assert_eq!(find_credit_type("«Образование» на выгодных условиях"), CreditType::Education);
    assert_eq!(find_credit_type("«Образовательный» на выгодных условиях"), CreditType::Education);
}

#[test]
fn keyword_gives_consumer() {
    assert_eq!(find_credit_type("«Потребительский» на выгодных условиях"), CreditType::Consumer);
}

#[test]
fn keyword_gives_overdraft() {
    assert_eq!(find_credit_type("«Расчетный» на выгодных условиях"), CreditType::Overdraft);
    assert_eq!(find_credit_type("«Овердрафт» на выгодных условиях"), CreditType::Overdraft);
}

#[test]
fn keyword_gives_credit_card() {
    assert_eq!(find_credit_type("«Кредитная карта» на выгодных условиях"), CreditType::CreditCard);
}

#[test]
fn auto_wins_over_mortgage() {
    assert_eq!(find_credit_type("Автокредит и Ипотека"), CreditType::Auto);
    assert_eq!(find_credit_type("Ипотека и Автокредит"), CreditType::Auto);
}

#[test]
fn auto_wins_over_micro() {
    assert_eq!(find_credit_type("Автокредит и Микрозайм"), CreditType::Auto);
    assert_eq!(find_credit_type("Микрокредит и Автокредит"), CreditType::Auto);
}

#[test]
fn auto_wins_over_education() {
    assert_eq!(find_credit_type("Автокредит и Образовательный"), CreditType::Auto);
    assert_eq!(find_credit_type("Образование и Автокредит"), CreditType::Auto);
}

#[test]
fn auto_wins_over_consumer() {
    assert_eq!(find_credit_type("Автокредит и Потребительский"), CreditType::Auto);
    assert_eq!(find_credit_type("Потребительский и Автокредит"), CreditType::Auto);
}

#[test]
fn auto_wins_over_overdraft() {
    assert_eq!(find_credit_type("Автокредит и Овердрафт"), CreditType::Auto);
    assert_eq!(find_credit_type("Расчетный и Автокредит"), CreditType::Auto);
}

#[test]
fn auto_wins_over_credit_card() {
    assert_eq!(find_credit_type("Автокредит и Кредитная карта"), CreditType::Auto);
    assert_eq!(find_credit_type("Кредитная карта и Автокредит"), CreditType::Auto);
}

#[test]
fn mortgage_wins_over_micro() {
    assert_eq!(find_credit_type("Ипотека и Микрозайм"), CreditType::Mortgage);
    assert_eq!(find_credit_type("Микрокредит и Ипотека"), CreditType::Mortgage);
}

#[test]
fn mortgage_wins_over_education() {
    assert_eq!(find_credit_type("Ипотека и Образовательный"), CreditType::Mortgage);
    assert_eq!(find_credit_type("Образование и Ипотека"), CreditType::Mortgage);
}

#[test]
fn mortgage_wins_over_consumer() {
    assert_eq!(find_credit_type("Ипотека и Потребительский"), CreditType::Mortgage);
    assert_eq!(find_credit_type("Потребительский и Ипотека"), CreditType::Mortgage);
}

#[test]
fn mortgage_wins_over_overdraft() {
    assert_eq!(find_credit_type("Ипотека и Овердрафт"), CreditType::Mortgage);
    assert_eq!(find_credit_type("Расчетный и Ипотека"), CreditType::Mortgage);
}

#[test]
fn mortgage_wins_over_credit_card() {
    assert_eq!(find_credit_type("Ипотека и Кредитная карта"), CreditType::Mortgage);
    assert_eq!(find_credit_type("Кредитная карта и Ипотека"), CreditType::Mortgage);
}

#[test]
fn micro_wins_over_education() {
    assert_eq!(find_credit_type("Микрокредит и Образовательный"), CreditType::Micro);
    assert_eq!(find_credit_type("Образование и Микрозайм"), CreditType::Micro);
}

#[test]
fn micro_wins_over_consumer() {
    assert_eq!(find_credit_type("Микрокредит и Потребительский"), CreditType::Micro);
    assert_eq!(find_credit_type("Потребительский и Микрозайм"), CreditType::Micro);
}

#[test]
fn micro_wins_over_overdraft() {
    assert_eq!(find_credit_type("Микрокредит и Овердрафт"), CreditType::Micro);
    assert_eq!(find_credit_type("Расчетный и Микрозайм"), CreditType::Micro);
}

#[test]
fn micro_wins_over_credit_card() {
    assert_eq!(find_credit_type("Микрокредит и Кредитная карта"), CreditType::Micro);
    assert_eq!(find_credit_type("Кредитная карта и Микрозайм"), CreditType::Micro);
}

#[test]
fn education_wins_over_consumer() {
    assert_eq!(find_credit_type("Образование и Потребительский"), CreditType::Education);
    assert_eq!(find_credit_type("Потребительский и Образовательный"), CreditType::Education);
}

#[test]
fn education_wins_over_overdraft() {
    assert_eq!(find_credit_type("Образование и Овердрафт"), CreditType::Education);
    assert_eq!(find_credit_type("Расчетный и Образовательный"), CreditType::Education);
}

#[test]
fn education_wins_over_credit_card() {
    assert_eq!(find_credit_type("Образование и Кредитная карта"), CreditType::Education);
    assert_eq!(find_credit_type("Кредитная карта и Образовательный"), CreditType::Education);
}

#[test]
fn consumer_wins_over_overdraft() {
    assert_eq!(find_credit_type("Потребительский и Овердрафт"), CreditType::Consumer);
    assert_eq!(find_credit_type("Расчетный и Потребительский"), CreditType::Consumer);
}

#[test]
fn consumer_wins_over_credit_card() {
    assert_eq!(find_credit_type("Потребительский и Кредитная карта"), CreditType::Consumer);
    assert_eq!(find_credit_type("Кредитная карта и Потребительский"), CreditType::Consumer);
}

#[test]
fn overdraft_wins_over_credit_card() {
    assert_eq!(find_credit_type("Расчетный и Кредитная карта"), CreditType::Overdraft);
    assert_eq!(find_credit_type("Кредитная карта и Овердрафт"), CreditType::Overdraft);
}
