//! The assistant subsystem's request model and its pure parts: prompt
//! construction, response clean-up, provider validation and the fixed
//! model catalogs. The HTTP calls themselves live in the shell.

use vstd::prelude::*;

use crate::error::AppError;
use crate::text::remove_all;
use crate::text::spec_remove_all;
use crate::text::spec_trim;
use crate::text::trim;

verus! {

/// Which language-model provider to call, with its credential or
/// endpoint and the model to use.
#[derive(Debug, Clone, PartialEq, Eq)]
pub struct AIProviderConfig {
    pub provider: String,
    pub api_key: Option<String>,
    pub base_url: Option<String>,
    pub model: String,
}

/// A free-form question about the connected database's schema.
#[derive(Debug, Clone, PartialEq, Eq)]
pub struct ConsultRequest {
    pub question: String,
    pub schema_description: String,
    pub ai_config: AIProviderConfig,
}

/// A natural-language query to turn into SQL.
#[derive(Debug, Clone, PartialEq, Eq)]
pub struct GenerateSQLRequest {
    pub natural_language_query: String,
    pub schema_description: String,
    pub ai_config: AIProviderConfig,
}

/// A request for an entity-relationship diagram of the schema.
#[derive(Debug, Clone, PartialEq, Eq)]
pub struct GenerateDiagramRequest {
    pub schema_description: String,
    pub ai_config: AIProviderConfig,
}

/// A request for insights over a query result or a schema, each carried
/// as its rendered JSON text.
#[derive(Debug, Clone, PartialEq, Eq)]
pub struct GenerateInsightsRequest {
    pub query_result: Option<String>,
    pub schema: Option<String>,
    pub ai_config: AIProviderConfig,
}

/// The assistant service: stateless; every call takes the full request.
pub struct AIService;

/// The four provider names are pairwise distinct.
proof fn provider_names_distinct()
    ensures
        "openai"@ != "gemini"@,
        "openai"@ != "anthropic"@,
        "openai"@ != "ollama"@,
        "gemini"@ != "anthropic"@,
        "gemini"@ != "ollama"@,
        "anthropic"@ != "ollama"@,
{
    reveal_strlit("openai");
    reveal_strlit("gemini");
    reveal_strlit("anthropic");
    reveal_strlit("ollama");
    assert("openai"@[0] != "gemini"@[0]);
    assert("openai"@[1] != "ollama"@[1]);
    assert("gemini"@[0] != "ollama"@[0]);
    assert("openai"@.len() != "anthropic"@.len());
    assert("gemini"@.len() != "anthropic"@.len());
    assert("ollama"@.len() != "anthropic"@.len());
}

impl AIProviderConfig {
    /// Whether the configuration names a known provider and carries what
    /// that provider needs: a key for the hosted providers, a base URL
    /// for the local one.
    pub open spec fn spec_credential_ok(self) -> bool {
        ||| (self.provider@ == "openai"@ && self.api_key is Some)
        ||| (self.provider@ == "gemini"@ && self.api_key is Some)
        ||| (self.provider@ == "anthropic"@ && self.api_key is Some)
        ||| (self.provider@ == "ollama"@ && self.base_url is Some)
    }

    /// The complaint `credential_check` raises when the configuration is
    /// not usable.
    pub open spec fn spec_credential_error(self) -> Seq<char> {
        if self.provider@ == "openai"@ {
            "API key required for OpenAI"@
        } else if self.provider@ == "gemini"@ {
            "API key required for Gemini"@
        } else if self.provider@ == "anthropic"@ {
            "API key required for Anthropic"@
        } else if self.provider@ == "ollama"@ {
            "Base URL required for Ollama"@
        } else {
            "Unsupported AI provider"@
        }
    }

    /// The complaint `dispatch_check` raises when the configuration is
    /// not usable: as [`Self::spec_credential_error`], except that an
    /// unknown provider is reported by name.
    pub open spec fn spec_dispatch_error(self) -> Seq<char> {
        if self.provider@ == "openai"@ || self.provider@ == "gemini"@ || self.provider@
            == "anthropic"@ || self.provider@ == "ollama"@ {
            self.spec_credential_error()
        } else {
            "Unsupported AI provider: "@ + self.provider@
        }
    }

    /// Checks a configuration before key validation: a known provider
    /// must carry its credential, and an unknown provider is reported
    /// without its name.
    pub fn credential_check(&self) -> (r: Result<(), AppError>)
        ensures
            r is Ok <==> self.spec_credential_ok(),
            r matches Err(e) ==> e matches AppError::AIError(m) && m@
                == self.spec_credential_error(),
    {
        proof {
            provider_names_distinct();
        }
        if self.provider == String::from_str("openai") {
            if self.api_key.is_some() {
                Ok(())
            } else {
                Err(AppError::AIError(String::from_str("API key required for OpenAI")))
            }
        } else if self.provider == String::from_str("gemini") {
            if self.api_key.is_some() {
                Ok(())
            } else {
                Err(AppError::AIError(String::from_str("API key required for Gemini")))
            }
        } else if self.provider == String::from_str("anthropic") {
            if self.api_key.is_some() {
                Ok(())
            } else {
                Err(AppError::AIError(String::from_str("API key required for Anthropic")))
            }
        } else if self.provider == String::from_str("ollama") {
            if self.base_url.is_some() {
                Ok(())
            } else {
                Err(AppError::AIError(String::from_str("Base URL required for Ollama")))
            }
        } else {
            Err(AppError::AIError(String::from_str("Unsupported AI provider")))
        }
    }

    /// Checks a configuration on the request path, before a prompt is
    /// dispatched: as [`Self::credential_check`], except that an unknown
    /// provider is reported by name, `Unsupported AI provider: <name>`.
    pub fn dispatch_check(&self) -> (r: Result<(), AppError>)
        ensures
            r is Ok <==> self.spec_credential_ok(),
            r matches Err(e) ==> e matches AppError::AIError(m) && m@
                == self.spec_dispatch_error(),
    {
        proof {
            provider_names_distinct();
        }
        let known = self.provider == String::from_str("openai") || self.provider
            == String::from_str("gemini") || self.provider == String::from_str("anthropic")
            || self.provider == String::from_str("ollama");
        if known {
            self.credential_check()
        } else {
            let mut m = String::from_str("Unsupported AI provider: ");
            m.append(self.provider.as_str());
            Err(AppError::AIError(m))
        }
    }
}

/// The fixed model catalogs this build carries: the OpenAI and Gemini
/// lists. The Anthropic catalog is deliberately not pinned in this build
/// and yields an empty list, as does any unknown provider; the local
/// provider's catalog is fetched live by the shell.
pub fn available_models(config: &AIProviderConfig) -> (r: Vec<String>)
    ensures
        config.provider@ == "openai"@ ==> r@.len() == 6 && r@[0]@ == "gpt-4o"@ && r@[1]@
            == "gpt-4o-mini"@ && r@[2]@ == "gpt-4-turbo"@ && r@[3]@ == "gpt-4"@ && r@[4]@
            == "gpt-3.5-turbo"@ && r@[5]@ == "gpt-3.5-turbo-16k"@,
        config.provider@ == "gemini"@ ==> r@.len() == 3 && r@[0]@ == "gemini-1.5-pro"@ && r@[1]@
            == "gemini-1.5-flash"@ && r@[2]@ == "gemini-1.0-pro"@,
        config.provider@ != "openai"@ && config.provider@ != "gemini"@ ==> r@.len() == 0,
{
    proof {
        provider_names_distinct();
    }
    let mut models: Vec<String> = Vec::new();
    if config.provider == String::from_str("openai") {
        models.push(String::from_str("gpt-4o"));
        models.push(String::from_str("gpt-4o-mini"));
        models.push(String::from_str("gpt-4-turbo"));
        models.push(String::from_str("gpt-4"));
        models.push(String::from_str("gpt-3.5-turbo"));
        models.push(String::from_str("gpt-3.5-turbo-16k"));
    } else if config.provider == String::from_str("gemini") {
        models.push(String::from_str("gemini-1.5-pro"));
        models.push(String::from_str("gemini-1.5-flash"));
        models.push(String::from_str("gemini-1.0-pro"));
    }
    models
}

/// The text `create_consult_prompt` builds around the schema description
/// and the question.
pub open spec fn spec_consult_prompt(question: Seq<char>, schema: Seq<char>) -> Seq<char> {
    "Anda adalah seorang ahli database. Jawablah pertanyaan berikut tentang skema database dalam bahasa Indonesia dengan format markdown yang terstruktur:

Schema:
"@ + schema + "

Pertanyaan: "@ + question + "

WAJIB gunakan format markdown berikut:

## 📋 Jawaban

[Berikan jawaban yang jelas dan langsung untuk pertanyaan tersebut]

## 🔍 Query SQL

```sql
[Berikan query SQL yang relevan untuk menjawab pertanyaan]
```

## 💡 Wawasan Database

[Berikan wawasan tambahan tentang struktur database yang relevan]

## ⚡ Praktik Terbaik

[Berikan rekomendasi atau praktik terbaik yang terkait dengan pertanyaan]

## 📊 Informasi Tambahan

[Informasi tambahan yang mungkin berguna]

---

**Catatan:** Pastikan semua kode SQL menggunakan syntax yang benar dan sesuai dengan skema database yang tersedia. Gunakan nama tabel dan kolom yang tepat sesuai dengan skema."@
}

/// The text `create_sql_prompt` builds around the schema description and
/// the natural-language query.
pub open spec fn spec_sql_prompt(query: Seq<char>, schema: Seq<char>) -> Seq<char> {
    "Anda adalah ahli SQL. Berdasarkan skema database dan query bahasa alami, buatlah query SQL yang valid.

"@ + schema + "

Query Bahasa Alami: \""@ + query + "\"

ATURAN VALIDASI KRITIS:
1. SEBELUM menulis query, periksa dengan teliti skema di atas
2. HANYA gunakan nama tabel yang tercantum dalam skema
3. HANYA gunakan nama kolom yang tercantum di bawah setiap tabel dalam skema
4. Jika tabel atau kolom tidak ada dalam skema, JANGAN gunakan
5. Saat menggunakan alias tabel (t1, t2, dll), pastikan merujuk ke tabel yang benar
6. Periksa bahwa kondisi JOIN menggunakan kolom yang ada dari kedua tabel
7. Verifikasi bahwa semua kolom SELECT ada dalam tabel yang ditentukan

FORMAT OUTPUT:
- HANYA kembalikan query SQL murni
- TIDAK boleh menggunakan markdown (backticks atau code blocks)
- TIDAK boleh ada penjelasan atau teks lain
- Gunakan sintaks MySQL yang benar
- Contoh: SELECT * FROM tabel;

Query SQL:"@
}

/// The text `create_diagram_prompt` builds around the schema description.
pub open spec fn spec_diagram_prompt(schema: Seq<char>) -> Seq<char> {
    "Buat diagram ER Mermaid untuk skema database berikut dengan SEMUA KOLOM BERWARNA GELAP:

"@ + schema + "

PENTING: SEMUA KOLOM HARUS BERWARNA GELAP, TIDAK ADA WARNA SELINGAN!

PERSYARATAN WAJIB:
1. Gunakan sintaks diagram ER Mermaid yang benar
2. Sertakan SEMUA tabel yang ada dalam skema
3. Tampilkan primary key (PK) dan foreign key (FK) dengan jelas
4. Gunakan nama tabel dan kolom yang sesuai dengan skema
5. Sertakan indikator kardinalitas (1:1, 1:N, N:M) di relasi
6. Buat diagram yang mudah dibaca dan terstruktur dengan baik
7. Gunakan format: erDiagram
8. Tampilkan tipe data untuk setiap kolom
9. SEMUA KOLOM HARUS BERWARNA GELAP KONSISTEN

LARANGAN KETAT - WAJIB DIPATUHI:
- JANGAN gunakan classDef atau styling apapun
- JANGAN gunakan fill:#f9f atau warna terang lainnya
- JANGAN gunakan stroke:#333 atau warna abu-abu terang
- JANGAN gunakan stroke-width yang tipis
- JANGAN gunakan baris classDef default fill:#f9f,stroke:#333,stroke-width:2px;
- JANGAN gunakan styling apapun selain erDiagram murni
- JANGAN gunakan warna selingan untuk kolom

FORMAT OUTPUT:
- HANYA keluarkan kode diagram Mermaid murni
- TIDAK boleh ada penjelasan atau teks lain
- TIDAK boleh menggunakan markdown (backticks atau code blocks)
- Mulai dengan \"erDiagram\"
- Gunakan sintaks yang benar untuk relasi
- JANGAN gunakan mermaid atau di awal dan akhir
- JANGAN gunakan classDef atau styling apapun

Contoh format:
erDiagram
    TABLE1 {
        int id PK
        string name
    }
    TABLE2 {
        int id PK
        int table1_id FK
        string description
    }
    TABLE1 ||--o{ TABLE2 : \"relasi\"

Diagram Mermaid:"@
}

/// The text `create_insights_prompt` builds: around the rendered query
/// result when one is given, else around the rendered schema, else a
/// fixed notice that there is nothing to analyse.
pub open spec fn spec_insights_prompt(
    query_result: Option<Seq<char>>,
    schema: Option<Seq<char>>,
) -> Seq<char> {
    if query_result is Some {
        "Analisis hasil query berikut dan berikan wawasan dalam bahasa Indonesia:

Data: "@ + query_result->0 + "

Silakan berikan:
1. Temuan utama dari data
2. Pola atau tren yang diamati
3. Rekomendasi berdasarkan hasil
4. Potensi masalah atau anomali

Berikan respons yang ringkas dan dapat ditindaklanjuti dalam bahasa Indonesia."@
    } else if schema is Some {
        "Analisis skema database berikut dan berikan wawasan dalam bahasa Indonesia:

Database Schema: "@ + schema->0 + "

Silakan berikan:
1. Analisis struktur database
2. Relasi antar tabel
3. Tipe data dan constraint
4. Peluang optimasi
5. Rekomendasi untuk desain database
6. Saran query untuk mengeksplorasi data

Berikan respons yang ringkas dan dapat ditindaklanjuti dalam bahasa Indonesia."@
    } else {
        "Tidak ada data yang tersedia untuk dianalisis."@
    }
}

impl AIService {
    /// Builds the structured consultation prompt over a schema
    /// description and a question.
    pub fn create_consult_prompt(&self, question: &str, schema: &str) -> (r: String)
        ensures
            r@ == spec_consult_prompt(question@, schema@),
    {
        let mut s = String::from_str(
            "Anda adalah seorang ahli database. Jawablah pertanyaan berikut tentang skema database dalam bahasa Indonesia dengan format markdown yang terstruktur:

Schema:
",
        );
        s.append(schema);
        s.append("

Pertanyaan: ");
        s.append(question);
        s.append(
            "

WAJIB gunakan format markdown berikut:

## 📋 Jawaban

[Berikan jawaban yang jelas dan langsung untuk pertanyaan tersebut]

## 🔍 Query SQL

```sql
[Berikan query SQL yang relevan untuk menjawab pertanyaan]
```

## 💡 Wawasan Database

[Berikan wawasan tambahan tentang struktur database yang relevan]

## ⚡ Praktik Terbaik

[Berikan rekomendasi atau praktik terbaik yang terkait dengan pertanyaan]

## 📊 Informasi Tambahan

[Informasi tambahan yang mungkin berguna]

---

**Catatan:** Pastikan semua kode SQL menggunakan syntax yang benar dan sesuai dengan skema database yang tersedia. Gunakan nama tabel dan kolom yang tepat sesuai dengan skema.",
        );
        s
    }

    /// Builds the SQL-generation prompt over a schema description and a
    /// natural-language query.
    pub fn create_sql_prompt(&self, query: &str, schema: &str) -> (r: String)
        ensures
            r@ == spec_sql_prompt(query@, schema@),
    {
        let mut s = String::from_str(
            "Anda adalah ahli SQL. Berdasarkan skema database dan query bahasa alami, buatlah query SQL yang valid.

",
        );
        s.append(schema);
        s.append("

Query Bahasa Alami: \"");
        s.append(query);
        s.append(
            "\"

ATURAN VALIDASI KRITIS:
1. SEBELUM menulis query, periksa dengan teliti skema di atas
2. HANYA gunakan nama tabel yang tercantum dalam skema
3. HANYA gunakan nama kolom yang tercantum di bawah setiap tabel dalam skema
4. Jika tabel atau kolom tidak ada dalam skema, JANGAN gunakan
5. Saat menggunakan alias tabel (t1, t2, dll), pastikan merujuk ke tabel yang benar
6. Periksa bahwa kondisi JOIN menggunakan kolom yang ada dari kedua tabel
7. Verifikasi bahwa semua kolom SELECT ada dalam tabel yang ditentukan

FORMAT OUTPUT:
- HANYA kembalikan query SQL murni
- TIDAK boleh menggunakan markdown (backticks atau code blocks)
- TIDAK boleh ada penjelasan atau teks lain
- Gunakan sintaks MySQL yang benar
- Contoh: SELECT * FROM tabel;

Query SQL:",
        );
        s
    }

    /// Builds the diagram-generation prompt over a schema description.
    pub fn create_diagram_prompt(&self, schema: &str) -> (r: String)
        ensures
            r@ == spec_diagram_prompt(schema@),
    {
        let mut s = String::from_str(
            "Buat diagram ER Mermaid untuk skema database berikut dengan SEMUA KOLOM BERWARNA GELAP:

",
        );
        s.append(schema);
        s.append(
            "

PENTING: SEMUA KOLOM HARUS BERWARNA GELAP, TIDAK ADA WARNA SELINGAN!

PERSYARATAN WAJIB:
1. Gunakan sintaks diagram ER Mermaid yang benar
2. Sertakan SEMUA tabel yang ada dalam skema
3. Tampilkan primary key (PK) dan foreign key (FK) dengan jelas
4. Gunakan nama tabel dan kolom yang sesuai dengan skema
5. Sertakan indikator kardinalitas (1:1, 1:N, N:M) di relasi
6. Buat diagram yang mudah dibaca dan terstruktur dengan baik
7. Gunakan format: erDiagram
8. Tampilkan tipe data untuk setiap kolom
9. SEMUA KOLOM HARUS BERWARNA GELAP KONSISTEN

LARANGAN KETAT - WAJIB DIPATUHI:
- JANGAN gunakan classDef atau styling apapun
- JANGAN gunakan fill:#f9f atau warna terang lainnya
- JANGAN gunakan stroke:#333 atau warna abu-abu terang
- JANGAN gunakan stroke-width yang tipis
- JANGAN gunakan baris classDef default fill:#f9f,stroke:#333,stroke-width:2px;
- JANGAN gunakan styling apapun selain erDiagram murni
- JANGAN gunakan warna selingan untuk kolom

FORMAT OUTPUT:
- HANYA keluarkan kode diagram Mermaid murni
- TIDAK boleh ada penjelasan atau teks lain
- TIDAK boleh menggunakan markdown (backticks atau code blocks)
- Mulai dengan \"erDiagram\"
- Gunakan sintaks yang benar untuk relasi
- JANGAN gunakan mermaid atau di awal dan akhir
- JANGAN gunakan classDef atau styling apapun

Contoh format:
erDiagram
    TABLE1 {
        int id PK
        string name
    }
    TABLE2 {
        int id PK
        int table1_id FK
        string description
    }
    TABLE1 ||--o{ TABLE2 : \"relasi\"

Diagram Mermaid:",
        );
        s
    }

    /// Builds the insights prompt: a query result takes precedence over a
    /// schema; with neither, a fixed notice is returned. Both inputs are
    /// already-rendered JSON text.
    pub fn create_insights_prompt(
        &self,
        query_result: &Option<String>,
        schema: &Option<String>,
    ) -> (r: String)
        ensures
            r@ == spec_insights_prompt(
                match query_result {
                    Some(q) => Some(q@),
                    None => None,
                },
                match schema {
                    Some(s) => Some(s@),
                    None => None,
                },
            ),
    {
        match query_result {
            Some(result) => {
                let mut s = String::from_str(
                    "Analisis hasil query berikut dan berikan wawasan dalam bahasa Indonesia:

Data: ",
                );
                s.append(result.as_str());
                s.append(
                    "

Silakan berikan:
1. Temuan utama dari data
2. Pola atau tren yang diamati
3. Rekomendasi berdasarkan hasil
4. Potensi masalah atau anomali

Berikan respons yang ringkas dan dapat ditindaklanjuti dalam bahasa Indonesia.",
                );
                s
            },
            None => match schema {
                Some(sch) => {
                    let mut s = String::from_str(
                        "Analisis skema database berikut dan berikan wawasan dalam bahasa Indonesia:

Database Schema: ",
                    );
                    s.append(sch.as_str());
                    s.append(
                        "

Silakan berikan:
1. Analisis struktur database
2. Relasi antar tabel
3. Tipe data dan constraint
4. Peluang optimasi
5. Rekomendasi untuk desain database
6. Saran query untuk mengeksplorasi data

Berikan respons yang ringkas dan dapat ditindaklanjuti dalam bahasa Indonesia.",
                    );
                    s
                },
                None => String::from_str("Tidak ada data yang tersedia untuk dianalisis."),
            },
        }
    }

    /// Strips markdown code fences from a generated SQL answer and trims
    /// surrounding whitespace.
    pub fn clean_sql_from_markdown(&self, sql: &str) -> (r: String)
        ensures
            r@ == spec_trim(spec_remove_all(spec_remove_all(sql@, "```sql"@), "```"@)),
    {
        let step = remove_all(sql, "```sql");
        let step = remove_all(step.as_str(), "```");
        trim(step.as_str())
    }

    /// Strips markdown code fences from a generated Mermaid diagram and
    /// trims surrounding whitespace.
    pub fn clean_mermaid_from_markdown(&self, diagram: &str) -> (r: String)
        ensures
            r@ == spec_trim(spec_remove_all(spec_remove_all(diagram@, "```mermaid"@), "```"@)),
    {
        let step = remove_all(diagram, "```mermaid");
        let step = remove_all(step.as_str(), "```");
        trim(step.as_str())
    }
}

} // verus!
