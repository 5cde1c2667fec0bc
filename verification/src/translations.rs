//! The locale resolution table: one entry per message key, each a total
//! function from the active language to display text. A key that was never
//! translated into the requested language falls back to its English text, so
//! resolution can never fail and never yields an empty string.

use vstd::prelude::*;
use vstd::string::StringExecFns;

use crate::language::Language;

verus! {

/// Text of the general-settings section title.
pub open spec fn general_text(language: Language) -> Seq<char> {
    match language {
        Language::ES => "Generales"@,
        Language::IT => "Generali"@,
        Language::FR => "Général"@,
        _ => "General"@,
    }
}

/// Resolves the general-settings section title.
pub fn general_translation(language: Language) -> (r: &'static str)
    ensures
        r@ == general_text(language),
        r@.len() > 0,
{
    proof {
        reveal_strlit("Generales");
        reveal_strlit("Generali");
        reveal_strlit("Général");
        reveal_strlit("General");
    }
    match language {
        Language::ES => "Generales",
        Language::IT => "Generali",
        Language::FR => "Général",
        _ => "General",
    }
}

/// Text of the zoom setting label; the word is shared by every authored
/// language.
pub open spec fn zoom_text(language: Language) -> Seq<char> {
    "Zoom"@
}

/// Resolves the zoom setting label.
pub fn zoom_translation(language: Language) -> (r: &'static str)
    ensures
        r@ == zoom_text(language),
        r@.len() > 0,
{
    proof {
        reveal_strlit("Zoom");
    }
    "Zoom"
}

/// Text of the database-files section label.
pub open spec fn mmdb_files_text(language: Language) -> Seq<char> {
    match language {
        Language::ES => "Archivos de la base de datos"@,
        Language::IT => "File di database"@,
        Language::FR => "Fichiers de la base de données"@,
        _ => "Database files"@,
    }
}

/// Resolves the database-files section label.
pub fn mmdb_files_translation(language: Language) -> (r: &'static str)
    ensures
        r@ == mmdb_files_text(language),
        r@.len() > 0,
{
    proof {
        reveal_strlit("Archivos de la base de datos");
        reveal_strlit("File di database");
        reveal_strlit("Fichiers de la base de données");
        reveal_strlit("Database files");
    }
    match language {
        Language::ES => "Archivos de la base de datos",
        Language::IT => "File di database",
        Language::FR => "Fichiers de la base de données",
        _ => "Database files",
    }
}

/// Text of the notice that some parameters are frozen while an analysis runs.
pub open spec fn params_not_editable_text(language: Language) -> Seq<char> {
    match language {
        Language::ES => "Los siguientes parámetros no pueden modificarse durante el análisis"@,
        Language::IT => "I seguenti parametri non sono modificabili durante l'analisi"@,
        Language::FR => "Les paramètres suivants ne peuvent pas être modifiés durant l'analyse"@,
        _ => "The following parameters can't be modified during the analysis"@,
    }
}

/// Resolves the frozen-parameters notice.
pub fn params_not_editable_translation(language: Language) -> (r: &'static str)
    ensures
        r@ == params_not_editable_text(language),
        r@.len() > 0,
{
    proof {
        reveal_strlit("Los siguientes parámetros no pueden modificarse durante el análisis");
        reveal_strlit("I seguenti parametri non sono modificabili durante l'analisi");
        reveal_strlit("Les paramètres suivants ne peuvent pas être modifiés durant l'analyse");
        reveal_strlit("The following parameters can't be modified during the analysis");
    }
    match language {
        Language::ES => "Los siguientes parámetros no pueden modificarse durante el análisis",
        Language::IT => "I seguenti parametri non sono modificabili durante l'analisi",
        Language::FR => "Les paramètres suivants ne peuvent pas être modifiés durant l'analyse",
        _ => "The following parameters can't be modified during the analysis",
    }
}

/// Text of the custom-style option label.
pub open spec fn custom_style_text(language: Language) -> Seq<char> {
    match language {
        Language::ES => "Estilo personalizado"@,
        Language::IT => "Stile personalizzato"@,
        Language::FR => "Style personnalisé"@,
        _ => "Custom style"@,
    }
}

/// Resolves the custom-style option label.
pub fn custom_style_translation(language: Language) -> (r: &'static str)
    ensures
        r@ == custom_style_text(language),
        r@.len() > 0,
{
    proof {
        reveal_strlit("Estilo personalizado");
        reveal_strlit("Stile personalizzato");
        reveal_strlit("Style personnalisé");
        reveal_strlit("Custom style");
    }
    match language {
        Language::ES => "Estilo personalizado",
        Language::IT => "Stile personalizzato",
        Language::FR => "Style personnalisé",
        _ => "Custom style",
    }
}

/// Text of the copy action label; Italian and Spanish share one word.
pub open spec fn copy_text(language: Language) -> Seq<char> {
    match language {
        Language::IT | Language::ES => "Copia"@,
        Language::FR => "Copie"@,
        _ => "Copy"@,
    }
}

/// Resolves the copy action label.
pub fn copy_translation(language: Language) -> (r: &'static str)
    ensures
        r@ == copy_text(language),
        r@.len() > 0,
{
    proof {
        reveal_strlit("Copia");
        reveal_strlit("Copie");
        reveal_strlit("Copy");
    }
    match language {
        Language::IT | Language::ES => "Copia",
        Language::FR => "Copie",
        _ => "Copy",
    }
}

/// Text of the port column label; English and French share one word.
pub open spec fn port_text(language: Language) -> Seq<char> {
    match language {
        Language::ES => "Puerto"@,
        Language::IT => "Porta"@,
        _ => "Port"@,
    }
}

/// Resolves the port column label.
pub fn port_translation(language: Language) -> (r: &'static str)
    ensures
        r@ == port_text(language),
        r@.len() > 0,
{
    proof {
        reveal_strlit("Puerto");
        reveal_strlit("Porta");
        reveal_strlit("Port");
    }
    match language {
        Language::ES => "Puerto",
        Language::IT => "Porta",
        _ => "Port",
    }
}

/// Text of the invalid-filters warning title.
pub open spec fn invalid_filters_text(language: Language) -> Seq<char> {
    match language {
        Language::ES => "Filtros inválidos"@,
        Language::IT => "Filtri non validi"@,
        Language::FR => "Filtres invalides"@,
        _ => "Invalid filters"@,
    }
}

/// Resolves the invalid-filters warning title.
pub fn invalid_filters_translation(language: Language) -> (r: &'static str)
    ensures
        r@ == invalid_filters_text(language),
        r@.len() > 0,
{
    proof {
        reveal_strlit("Filtros inválidos");
        reveal_strlit("Filtri non validi");
        reveal_strlit("Filtres invalides");
        reveal_strlit("Invalid filters");
    }
    match language {
        Language::ES => "Filtros inválidos",
        Language::IT => "Filtri non validi",
        Language::FR => "Filtres invalides",
        _ => "Invalid filters",
    }
}

/// Text of the messages tab label; English and French share one word.
pub open spec fn messages_text(language: Language) -> Seq<char> {
    match language {
        Language::ES => "Mensajes"@,
        Language::IT => "Messaggi"@,
        _ => "Messages"@,
    }
}

/// Resolves the messages tab label.
pub fn messages_translation(language: Language) -> (r: &'static str)
    ensures
        r@ == messages_text(language),
        r@.len() > 0,
{
    proof {
        reveal_strlit("Mensajes");
        reveal_strlit("Messaggi");
        reveal_strlit("Messages");
    }
    match language {
        Language::ES => "Mensajes",
        Language::IT => "Messaggi",
        _ => "Messages",
    }
}

/// Text of the link-type field label.
pub open spec fn link_type_text(language: Language) -> Seq<char> {
    match language {
        Language::ES => "Tipo de conexión"@,
        Language::IT => "Tipo di collegamento"@,
        Language::FR => "Type de connexion"@,
        _ => "Link type"@,
    }
}

/// Resolves the link-type field label.
pub fn link_type_translation(language: Language) -> (r: &'static str)
    ensures
        r@ == link_type_text(language),
        r@.len() > 0,
{
    proof {
        reveal_strlit("Tipo de conexión");
        reveal_strlit("Tipo di collegamento");
        reveal_strlit("Type de connexion");
        reveal_strlit("Link type");
    }
    match language {
        Language::ES => "Tipo de conexión",
        Language::IT => "Tipo di collegamento",
        Language::FR => "Type de connexion",
        _ => "Link type",
    }
}

/// Text of the network-adapter field label, used on its own and as the label
/// inside the unsupported-link-type message.
pub open spec fn network_adapter_text(language: Language) -> Seq<char> {
    match language {
        Language::ES => "Adaptador de red"@,
        Language::IT => "Adattatore di rete"@,
        Language::FR => "Adaptateur réseau"@,
        _ => "Network adapter"@,
    }
}

/// Resolves the network-adapter field label.
pub fn network_adapter_translation(language: Language) -> (r: &'static str)
    ensures
        r@ == network_adapter_text(language),
        r@.len() > 0,
{
    proof {
        reveal_strlit("Adaptador de red");
        reveal_strlit("Adattatore di rete");
        reveal_strlit("Adaptateur réseau");
        reveal_strlit("Network adapter");
    }
    match language {
        Language::ES => "Adaptador de red",
        Language::IT => "Adattatore di rete",
        Language::FR => "Adaptateur réseau",
        _ => "Network adapter",
    }
}

/// Base sentence of the unsupported-link-type message.
pub open spec fn unsupported_link_type_text(language: Language) -> Seq<char> {
    match language {
        Language::ES => "La conexión asociada con este adaptador aún no esta implementada en Sniffnet..."@,
        Language::IT => "Il tipo di collegamento associato a questo adattatore di rete non è ancora supportato da Sniffnet..."@,
        Language::FR => "Le type de connexion associé à cet adaptateur n'est pas encore supporté par Sniffnet..."@,
        _ => "The link type associated with this adapter is not supported by Sniffnet yet..."@,
    }
}

/// The whole unsupported-link-type message: the base sentence, a blank line,
/// then the network-adapter label and the adapter name the caller supplies.
pub open spec fn unsupported_link_type_message(language: Language, adapter: Seq<char>)
    -> Seq<char> {
    unsupported_link_type_text(language) + "\n\n"@ + network_adapter_text(language) + ": "@
        + adapter
}

/// Composes the unsupported-link-type message for the given adapter name.
pub fn unsupported_link_type_translation(language: Language, adapter: &str) -> (r: String)
    ensures
        r@ == unsupported_link_type_message(language, adapter@),
        r@.len() > 0,
{
    proof {
        reveal_strlit(
            "La conexión asociada con este adaptador aún no esta implementada en Sniffnet...",
        );
        reveal_strlit(
            "Il tipo di collegamento associato a questo adattatore di rete non è ancora supportato da Sniffnet...",
        );
        reveal_strlit(
            "Le type de connexion associé à cet adaptateur n'est pas encore supporté par Sniffnet...",
        );
        reveal_strlit(
            "The link type associated with this adapter is not supported by Sniffnet yet...",
        );
    }
    let base: &str = match language {
        Language::ES => "La conexión asociada con este adaptador aún no esta implementada en Sniffnet...",
        Language::IT => "Il tipo di collegamento associato a questo adattatore di rete non è ancora supportato da Sniffnet...",
        Language::FR => "Le type de connexion associé à cet adaptateur n'est pas encore supporté par Sniffnet...",
        _ => "The link type associated with this adapter is not supported by Sniffnet yet...",
    };
    let label = network_adapter_translation(language);
    String::from_str(base).concat("\n\n").concat(label).concat(": ").concat(adapter)
}

/// Text of the select-style-from-file action label.
pub open spec fn style_from_file_text(language: Language) -> Seq<char> {
    match language {
        Language::ES => "Selecciona el estilo desde un archivo"@,
        Language::IT => "Seleziona lo stile da un file"@,
        Language::FR => "Sélectionner un style à partir d'un fichier"@,
        _ => "Select style from a file"@,
    }
}

/// Resolves the select-style-from-file action label.
pub fn style_from_file_translation(language: Language) -> (r: &'static str)
    ensures
        r@ == style_from_file_text(language),
        r@.len() > 0,
{
    proof {
        reveal_strlit("Selecciona el estilo desde un archivo");
        reveal_strlit("Seleziona lo stile da un file");
        reveal_strlit("Sélectionner un style à partir d'un fichier");
        reveal_strlit("Select style from a file");
    }
    match language {
        Language::ES => "Selecciona el estilo desde un archivo",
        Language::IT => "Seleziona lo stile da un file",
        Language::FR => "Sélectionner un style à partir d'un fichier",
        _ => "Select style from a file",
    }
}

/// Text of the select-database-file action label.
pub open spec fn database_from_file_text(language: Language) -> Seq<char> {
    match language {
        Language::ES => "Selecciona un archivo de base de datos"@,
        Language::IT => "Seleziona file di database"@,
        Language::FR => "Sélection d'un fichier de base de données"@,
        _ => "Select database file"@,
    }
}

/// Resolves the select-database-file action label.
pub fn database_from_file_translation(language: Language) -> (r: &'static str)
    ensures
        r@ == database_from_file_text(language),
        r@.len() > 0,
{
    proof {
        reveal_strlit("Selecciona un archivo de base de datos");
        reveal_strlit("Seleziona file di database");
        reveal_strlit("Sélection d'un fichier de base de données");
        reveal_strlit("Select database file");
    }
    match language {
        Language::ES => "Selecciona un archivo de base de datos",
        Language::IT => "Seleziona file di database",
        Language::FR => "Sélection d'un fichier de base de données",
        _ => "Select database file",
    }
}

/// Text of the filter-by-host field label.
pub open spec fn filter_by_host_text(language: Language) -> Seq<char> {
    match language {
        Language::ES => "Filtra por host de red"@,
        Language::IT => "Filtra per host di rete"@,
        Language::FR => "Filtrer par réseau hôte"@,
        _ => "Filter by network host"@,
    }
}

/// Resolves the filter-by-host field label.
pub fn filter_by_host_translation(language: Language) -> (r: &'static str)
    ensures
        r@ == filter_by_host_text(language),
        r@.len() > 0,
{
    proof {
        reveal_strlit("Filtra por host de red");
        reveal_strlit("Filtra per host di rete");
        reveal_strlit("Filtrer par réseau hôte");
        reveal_strlit("Filter by network host");
    }
    match language {
        Language::ES => "Filtra por host de red",
        Language::IT => "Filtra per host di rete",
        Language::FR => "Filtrer par réseau hôte",
        _ => "Filter by network host",
    }
}

/// Text of the service column label; English and French share one word.
pub open spec fn service_text(language: Language) -> Seq<char> {
    match language {
        Language::ES => "Servicio"@,
        Language::IT => "Servizio"@,
        _ => "Service"@,
    }
}

/// Resolves the service column label.
pub fn service_translation(language: Language) -> (r: &'static str)
    ensures
        r@ == service_text(language),
        r@.len() > 0,
{
    proof {
        reveal_strlit("Servicio");
        reveal_strlit("Servizio");
        reveal_strlit("Service");
    }
    match language {
        Language::ES => "Servicio",
        Language::IT => "Servizio",
        _ => "Service",
    }
}

/// Text of the export-capture-file action label; no Spanish entry was
/// authored, so Spanish falls back to English.
pub open spec fn export_capture_text(language: Language) -> Seq<char> {
    match language {
        Language::IT => "Esporta file di cattura"@,
        Language::FR => "Exporter le fichier de capture"@,
        _ => "Export capture file"@,
    }
}

/// Resolves the export-capture-file action label.
pub fn export_capture_translation(language: Language) -> (r: &'static str)
    ensures
        r@ == export_capture_text(language),
        r@.len() > 0,
{
    proof {
        reveal_strlit("Esporta file di cattura");
        reveal_strlit("Exporter le fichier de capture");
        reveal_strlit("Export capture file");
    }
    match language {
        Language::IT => "Esporta file di cattura",
        Language::FR => "Exporter le fichier de capture",
        _ => "Export capture file",
    }
}

/// Text of the destination-directory field label; no Spanish entry was
/// authored, so Spanish falls back to English.
pub open spec fn directory_text(language: Language) -> Seq<char> {
    match language {
        Language::IT => "Cartella"@,
        Language::FR => "Répertoire"@,
        _ => "Directory"@,
    }
}

/// Resolves the destination-directory field label.
pub fn directory_translation(language: Language) -> (r: &'static str)
    ensures
        r@ == directory_text(language),
        r@.len() > 0,
{
    proof {
        reveal_strlit("Cartella");
        reveal_strlit("Répertoire");
        reveal_strlit("Directory");
    }
    match language {
        Language::IT => "Cartella",
        Language::FR => "Répertoire",
        _ => "Directory",
    }
}

/// Text of the select-destination-directory action label; no Spanish entry
/// was authored, so Spanish falls back to English.
pub open spec fn select_directory_text(language: Language) -> Seq<char> {
    match language {
        Language::IT => "Seleziona cartella di destinazione"@,
        Language::FR => "Sélectionner le répertoire de destination"@,
        _ => "Select destination directory"@,
    }
}

/// Resolves the select-destination-directory action label.
pub fn select_directory_translation(language: Language) -> (r: &'static str)
    ensures
        r@ == select_directory_text(language),
        r@.len() > 0,
{
    proof {
        reveal_strlit("Seleziona cartella di destinazione");
        reveal_strlit("Sélectionner le répertoire de destination");
        reveal_strlit("Select destination directory");
    }
    match language {
        Language::IT => "Seleziona cartella di destinazione",
        Language::FR => "Sélectionner le répertoire de destination",
        _ => "Select destination directory",
    }
}

/// Text of the file-name field label; no Spanish entry was authored, so
/// Spanish falls back to English.
pub open spec fn file_name_text(language: Language) -> Seq<char> {
    match language {
        Language::IT => "Nome del file"@,
        Language::FR => "Nom du fichier"@,
        _ => "File name"@,
    }
}

/// Resolves the file-name field label.
pub fn file_name_translation(language: Language) -> (r: &'static str)
    ensures
        r@ == file_name_text(language),
        r@.len() > 0,
{
    proof {
        reveal_strlit("Nome del file");
        reveal_strlit("Nom du fichier");
        reveal_strlit("File name");
    }
    match language {
        Language::IT => "Nome del file",
        Language::FR => "Nom du fichier",
        _ => "File name",
    }
}

/// Text of the thumbnail-mode option label; no Spanish entry was authored, so
/// Spanish falls back to English.
pub open spec fn thumbnail_mode_text(language: Language) -> Seq<char> {
    match language {
        Language::IT => "Modalità miniatura"@,
        Language::FR => "Mode miniature"@,
        _ => "Thumbnail mode"@,
    }
}

/// Resolves the thumbnail-mode option label.
pub fn thumbnail_mode_translation(language: Language) -> (r: &'static str)
    ensures
        r@ == thumbnail_mode_text(language),
        r@.len() > 0,
{
    proof {
        reveal_strlit("Modalità miniatura");
        reveal_strlit("Mode miniature");
        reveal_strlit("Thumbnail mode");
    }
    match language {
        Language::IT => "Modalità miniatura",
        Language::FR => "Mode miniature",
        _ => "Thumbnail mode",
    }
}

/// Text of the learn-more prompt; no Spanish entry was authored, so Spanish
/// falls back to English.
pub open spec fn learn_more_text(language: Language) -> Seq<char> {
    match language {
        Language::IT => "Vuoi saperne di più?"@,
        Language::FR => "Voulez-vous en savoir davantage?"@,
        _ => "Do you want to learn more?"@,
    }
}

/// Resolves the learn-more prompt.
pub fn learn_more_translation(language: Language) -> (r: &'static str)
    ensures
        r@ == learn_more_text(language),
        r@.len() > 0,
{
    proof {
        reveal_strlit("Vuoi saperne di più?");
        reveal_strlit("Voulez-vous en savoir davantage?");
        reveal_strlit("Do you want to learn more?");
    }
    match language {
        Language::IT => "Vuoi saperne di più?",
        Language::FR => "Voulez-vous en savoir davantage?",
        _ => "Do you want to learn more?",
    }
}

/// Every message key falls back to its English text for a language it was
/// never authored in: German has no entries at all, and six keys also lack a
/// Spanish entry. The fallback is per key, never a blank or a third language.
pub proof fn lemma_missing_translation_falls_back(language: Language)
    ensures
        (language is DE) ==> general_text(language) == general_text(Language::EN),
        (language is DE) ==> zoom_text(language) == zoom_text(Language::EN),
        (language is DE) ==> mmdb_files_text(language) == mmdb_files_text(Language::EN),
        (language is DE) ==> params_not_editable_text(language) == params_not_editable_text(
            Language::EN,
        ),
        (language is DE) ==> custom_style_text(language) == custom_style_text(Language::EN),
        (language is DE) ==> copy_text(language) == copy_text(Language::EN),
        (language is DE) ==> port_text(language) == port_text(Language::EN),
        (language is DE) ==> invalid_filters_text(language) == invalid_filters_text(Language::EN),
        (language is DE) ==> messages_text(language) == messages_text(Language::EN),
        (language is DE) ==> link_type_text(language) == link_type_text(Language::EN),
        (language is DE) ==> network_adapter_text(language) == network_adapter_text(Language::EN),
        (language is DE) ==> unsupported_link_type_text(language) == unsupported_link_type_text(
            Language::EN,
        ),
        (language is DE) ==> style_from_file_text(language) == style_from_file_text(Language::EN),
        (language is DE) ==> database_from_file_text(language) == database_from_file_text(
            Language::EN,
        ),
        (language is DE) ==> filter_by_host_text(language) == filter_by_host_text(Language::EN),
        (language is DE) ==> service_text(language) == service_text(Language::EN),
        (language is DE || language is ES) ==> export_capture_text(language)
            == export_capture_text(Language::EN),
        (language is DE || language is ES) ==> directory_text(language) == directory_text(
            Language::EN,
        ),
        (language is DE || language is ES) ==> select_directory_text(language)
            == select_directory_text(Language::EN),
        (language is DE || language is ES) ==> file_name_text(language) == file_name_text(
            Language::EN,
        ),
        (language is DE || language is ES) ==> thumbnail_mode_text(language)
            == thumbnail_mode_text(Language::EN),
        (language is DE || language is ES) ==> learn_more_text(language) == learn_more_text(
            Language::EN,
        ),
{
}

} // verus!
