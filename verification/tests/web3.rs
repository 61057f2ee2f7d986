use amico::web3::TradeEffectorArgs;
use serde_json::Value;

#[test]
fn trade_arguments_are_the_json_text_of_the_tool_arguments() {
    let args: Value =
        serde_json::from_str(r#"{"input_mint": "sol", "output_mint": "abc", "amount": 1.5}"#).unwrap();
    let t = TradeEffectorArgs::from_tool_args(&args);
    assert_eq!(t.input_mint, "\"sol\"");
    assert_eq!(t.output_mint, "\"abc\"");
    assert_eq!(t.amount, "1.5");
}

#[test]
fn missing_trade_arguments_read_as_null() {
    let args: Value = serde_json::from_str(r#"{"input_mint": "sol"}"#).unwrap();
    let t = TradeEffectorArgs::from_tool_args(&args);
    assert_eq!(t.output_mint, "null");
    assert_eq!(t.amount, "null");
    let t = TradeEffectorArgs::from_tool_args(&Value::Bool(true));
    assert_eq!(t.input_mint, "null");
}
