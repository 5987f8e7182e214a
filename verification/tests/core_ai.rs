use dbcore::ai::AIProviderConfig;
use dbcore::ai::AIService;
use dbcore::ai::available_models;
use dbcore::error::AppError;

fn provider(name: &str, api_key: Option<&str>, base_url: Option<&str>) -> AIProviderConfig {
    AIProviderConfig {
        provider: String::from(name),
        api_key: api_key.map(String::from),
        base_url: base_url.map(String::from),
        model: String::from("some-model"),
    }
}

#[test]
fn hosted_providers_require_a_key() {
    assert!(provider("openai", Some("sk-test"), None).credential_check().is_ok());
    assert_eq!(
        provider("openai", None, None).credential_check().unwrap_err(),
        AppError::AIError(String::from("API key required for OpenAI"))
    );
    assert_eq!(
        provider("gemini", None, None).credential_check().unwrap_err(),
        AppError::AIError(String::from("API key required for Gemini"))
    );
    assert_eq!(
        provider("anthropic", None, None).credential_check().unwrap_err(),
        AppError::AIError(String::from("API key required for Anthropic"))
    );
}

#[test]
fn local_provider_requires_a_base_url() {
    assert!(provider("ollama", None, Some("http://localhost:11434")).credential_check().is_ok());
    assert_eq!(
        provider("ollama", None, None).credential_check().unwrap_err(),
        AppError::AIError(String::from("Base URL required for Ollama"))
    );
}

#[test]
fn unknown_provider_is_rejected() {
    assert_eq!(
        provider("mystery", Some("key"), None).credential_check().unwrap_err(),
        AppError::AIError(String::from("Unsupported AI provider"))
    );
}

#[test]
fn request_path_names_the_unknown_provider() {
    assert_eq!(
        provider("mystery", Some("key"), None).dispatch_check().unwrap_err(),
        AppError::AIError(String::from("Unsupported AI provider: mystery"))
    );
    assert_eq!(
        provider("", None, None).dispatch_check().unwrap_err(),
        AppError::AIError(String::from("Unsupported AI provider: "))
    );
}

#[test]
fn request_path_checks_credentials_like_validation() {
    assert!(provider("openai", Some("sk-test"), None).dispatch_check().is_ok());
    assert!(provider("ollama", None, Some("http://localhost:11434")).dispatch_check().is_ok());
    assert_eq!(
        provider("gemini", None, None).dispatch_check().unwrap_err(),
        AppError::AIError(String::from("API key required for Gemini"))
    );
    assert_eq!(
        provider("anthropic", None, None).dispatch_check().unwrap_err(),
        AppError::AIError(String::from("API key required for Anthropic"))
    );
}

#[test]
fn fixed_model_catalogs() {
    let openai = available_models(&provider("openai", None, None));
    assert_eq!(
        openai,
        vec![
            String::from("gpt-4o"),
            String::from("gpt-4o-mini"),
            String::from("gpt-4-turbo"),
            String::from("gpt-4"),
            String::from("gpt-3.5-turbo"),
            String::from("gpt-3.5-turbo-16k"),
        ]
    );
    let gemini = available_models(&provider("gemini", None, None));
    assert_eq!(gemini.len(), 3);
    assert_eq!(gemini[0], "gemini-1.5-pro");
    assert_eq!(available_models(&provider("anthropic", None, None)).len(), 0);
    assert_eq!(available_models(&provider("ollama", None, None)).len(), 0);
    assert_eq!(available_models(&provider("mystery", None, None)).len(), 0);
}

#[test]
fn consult_prompt_embeds_schema_and_question() {
    let service = AIService;
    let prompt = service.create_consult_prompt("Berapa jumlah tabel?", "tabel: users(id, name)");
    assert!(prompt.starts_with("Anda adalah seorang ahli database."));
    assert!(prompt.contains("Schema:\ntabel: users(id, name)\n"));
    assert!(prompt.contains("Pertanyaan: Berapa jumlah tabel?"));
    assert!(prompt.ends_with("Gunakan nama tabel dan kolom yang tepat sesuai dengan skema."));
}

#[test]
fn sql_prompt_embeds_schema_and_query() {
    let service = AIService;
    let prompt = service.create_sql_prompt("semua pengguna", "users(id, name)");
    assert!(prompt.starts_with("Anda adalah ahli SQL."));
    assert!(prompt.contains("users(id, name)"));
    assert!(prompt.contains("Query Bahasa Alami: \"semua pengguna\""));
    assert!(prompt.ends_with("Query SQL:"));
}

#[test]
fn diagram_prompt_embeds_schema() {
    let service = AIService;
    let prompt = service.create_diagram_prompt("users(id)");
    assert!(prompt.starts_with("Buat diagram ER Mermaid"));
    assert!(prompt.contains("users(id)"));
    assert!(prompt.contains("erDiagram"));
    assert!(prompt.ends_with("Diagram Mermaid:"));
}

#[test]
fn insights_prompt_prefers_query_result() {
    let service = AIService;
    let with_result = service.create_insights_prompt(
        &Some(String::from("{\"row_count\":2}")),
        &Some(String::from("{\"tables\":[]}")),
    );
    assert!(with_result.contains("Data: {\"row_count\":2}"));
    let with_schema = service.create_insights_prompt(&None, &Some(String::from("{\"tables\":[]}")));
    assert!(with_schema.contains("Database Schema: {\"tables\":[]}"));
    let with_nothing = service.create_insights_prompt(&None, &None);
    assert_eq!(with_nothing, "Tidak ada data yang tersedia untuk dianalisis.");
}

#[test]
fn sql_markdown_fences_are_stripped() {
    let service = AIService;
    assert_eq!(
        service.clean_sql_from_markdown("```sql\nSELECT * FROM users;\n```"),
        "SELECT * FROM users;"
    );
    assert_eq!(service.clean_sql_from_markdown("  SELECT 1;  "), "SELECT 1;");
    assert_eq!(service.clean_sql_from_markdown("```\nSELECT 2;\n```"), "SELECT 2;");
}

#[test]
fn mermaid_markdown_fences_are_stripped() {
    let service = AIService;
    assert_eq!(
        service.clean_mermaid_from_markdown("```mermaid\nerDiagram\n```"),
        "erDiagram"
    );
    assert_eq!(service.clean_mermaid_from_markdown("erDiagram"), "erDiagram");
}
