use qc_traits::{
    MaskOperand, Parser, QcFilterError, QcMaskOperand, QcProductType, QcScope, QcScopeError,
    QcSelectionError, QcSelectionStepOperand, Token,
};

#[test]
fn mask_operand() {
    for (string, value) in [
        (">", QcMaskOperand::GreaterThan),
        (">=", QcMaskOperand::GreaterEquals),
        ("<", QcMaskOperand::LowerThan),
        ("<=", QcMaskOperand::LowerEquals),
        ("=", QcMaskOperand::Equals),
        ("!", QcMaskOperand::NotEquals),
    ] {
        let operand = QcMaskOperand::from_str(string)
            .unwrap_or_else(|e| panic!("Failed to parse {}: {:?}", string, e));

        assert_eq!(operand, value);
    }
}

#[test]
fn pipeline_selection_step_operand_parsing() {
    for (string, value) in [
        (">", QcSelectionStepOperand::GreaterThan),
        (">=", QcSelectionStepOperand::GreaterEquals),
        ("<", QcSelectionStepOperand::LowerThan),
        ("<=", QcSelectionStepOperand::LowerEquals),
        ("=", QcSelectionStepOperand::Equals),
        ("!", QcSelectionStepOperand::NotEquals),
    ] {
        let operand = QcSelectionStepOperand::from_str(string)
            .unwrap_or_else(|e| panic!("Failed to parse {}: {:?}", string, e));

        assert_eq!(operand, value);
    }
}

#[test]
fn qc_scope_parsing() {
    for (value, expected) in [
        ("obs", QcScope::ProductType(QcProductType::Observation)),
        ("observation", QcScope::ProductType(QcProductType::Observation)),
        ("nav", QcScope::ProductType(QcProductType::BroadcastNavigation)),
        ("brdc", QcScope::ProductType(QcProductType::BroadcastNavigation)),
        ("ag:LAB", QcScope::Agency("LAB".to_string())),
        ("agency:LAB", QcScope::Agency("LAB".to_string())),
        ("op:MySelf", QcScope::Operator("MySelf".to_string())),
        ("operator:MySelf", QcScope::Operator("MySelf".to_string())),
        ("file:Bleh", QcScope::FileName("Bleh".to_string())),
    ] {
        let scope = QcScope::from_str(value)
            .unwrap_or_else(|e| panic!("Failed to parse QcScope from \"{}\" - {:?}", value, e));

        assert_eq!(scope, expected);
    }
}

#[test]
fn single_item_parsing() {
    let content = "Gal";
    let _tokens = Parser::tokenize(content);
}

#[test]
fn scope_parsing_rejects_unknown_forms() {
    assert_eq!(QcScope::from_str("zzz"), Err(QcScopeError::InvalidScope));
    assert_eq!(QcScope::from_str("ag:"), Err(QcScopeError::InvalidScope));
    assert_eq!(QcScope::from_str("file:"), Err(QcScopeError::InvalidScope));
    assert_eq!(QcScope::from_str(""), Err(QcScopeError::InvalidScope));
}

#[test]
fn product_type_parsing_is_case_insensitive() {
    assert_eq!(
        QcProductType::from_str("SP3"),
        Ok(QcProductType::HighPrecisionOrbit)
    );
    assert_eq!(
        QcProductType::from_str("  Clock "),
        Ok(QcProductType::HighPrecisionClockRINEX)
    );
    assert_eq!(
        QcProductType::from_str("NAVIGATION"),
        Ok(QcProductType::BroadcastNavigation)
    );
    assert_eq!(
        QcProductType::from_str("x"),
        Err(QcScopeError::UnknownProductType)
    );
}

#[test]
fn mask_operand_first_generation() {
    assert_eq!(MaskOperand::from_str("!="), Ok(MaskOperand::NotEquals));
    assert_eq!(MaskOperand::from_str(" >= "), Ok(MaskOperand::GreaterEquals));
    assert_eq!(MaskOperand::from_str("!"), Err(QcFilterError::InvalidOperand));
    assert_eq!(MaskOperand::from_str("a"), Err(QcFilterError::InvalidOperand));
}

#[test]
fn mask_operand_negation() {
    assert_eq!(
        QcMaskOperand::GreaterThan.not(),
        QcMaskOperand::LowerThan
    );
    assert_eq!(
        QcMaskOperand::GreaterEquals.not(),
        QcMaskOperand::LowerEquals
    );
    assert_eq!(QcMaskOperand::Equals.not(), QcMaskOperand::NotEquals);
    assert_eq!(MaskOperand::LowerThan.not(), MaskOperand::GreaterThan);
    assert_eq!(
        QcSelectionStepOperand::NotEquals.not(),
        QcSelectionStepOperand::Equals
    );
}

#[test]
fn selection_operand_rejects_junk() {
    assert_eq!(
        QcSelectionStepOperand::from_str("=="),
        Err(QcSelectionError::InvalidOperand)
    );
    assert_eq!(QcSelectionStepOperand::default(), QcSelectionStepOperand::Equals);
    assert_eq!(QcSelectionStepOperand::GreaterEquals.symbol(), ">=");
}

#[test]
fn tokenizer_gathers_items_between_separators() {
    let tokens = Parser::tokenize(" a:b=c; ");
    assert_eq!(
        tokens,
        vec![
            Token::Item("a".to_string()),
            Token::Colon,
            Token::Item("ab".to_string()),
            Token::Equal,
            Token::Item("abc".to_string()),
            Token::Semicolon,
        ]
    );

    // Characters after the last separator form no token.
    assert_eq!(Parser::tokenize("Gal"), vec![]);

    // A leading separator is emitted without an item.
    assert_eq!(
        Parser::tokenize(":x:"),
        vec![
            Token::Colon,
            Token::Item("x".to_string()),
            Token::Colon,
        ]
    );
}
