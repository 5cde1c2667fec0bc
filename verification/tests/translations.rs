use sniffnet::language::Language;
use sniffnet::translations::{
    copy_translation, custom_style_translation, database_from_file_translation,
    directory_translation, export_capture_translation, file_name_translation,
    filter_by_host_translation, general_translation, invalid_filters_translation,
    learn_more_translation, link_type_translation, messages_translation, mmdb_files_translation,
    network_adapter_translation, params_not_editable_translation, port_translation,
    select_directory_translation, service_translation, style_from_file_translation,
    thumbnail_mode_translation, unsupported_link_type_translation, zoom_translation,
};

const ALL_LANGUAGES: [Language; 5] = [
    Language::EN,
    Language::ES,
    Language::IT,
    Language::FR,
    Language::DE,
];

#[test]
fn authored_translations_resolve_exactly() {
    assert_eq!(general_translation(Language::EN), "General");
    assert_eq!(general_translation(Language::ES), "Generales");
    assert_eq!(general_translation(Language::IT), "Generali");
    assert_eq!(general_translation(Language::FR), "Général");

    assert_eq!(zoom_translation(Language::EN), "Zoom");
    assert_eq!(zoom_translation(Language::FR), "Zoom");

    assert_eq!(mmdb_files_translation(Language::EN), "Database files");
    assert_eq!(
        mmdb_files_translation(Language::ES),
        "Archivos de la base de datos"
    );
    assert_eq!(mmdb_files_translation(Language::IT), "File di database");
    assert_eq!(
        mmdb_files_translation(Language::FR),
        "Fichiers de la base de données"
    );

    assert_eq!(copy_translation(Language::EN), "Copy");
    assert_eq!(copy_translation(Language::ES), "Copia");
    assert_eq!(copy_translation(Language::IT), "Copia");
    assert_eq!(copy_translation(Language::FR), "Copie");

    assert_eq!(port_translation(Language::EN), "Port");
    assert_eq!(port_translation(Language::FR), "Port");
    assert_eq!(port_translation(Language::ES), "Puerto");
    assert_eq!(port_translation(Language::IT), "Porta");

    assert_eq!(service_translation(Language::ES), "Servicio");
    assert_eq!(messages_translation(Language::IT), "Messaggi");
    assert_eq!(invalid_filters_translation(Language::FR), "Filtres invalides");
    assert_eq!(link_type_translation(Language::ES), "Tipo de conexión");
    assert_eq!(
        custom_style_translation(Language::IT),
        "Stile personalizzato"
    );
    assert_eq!(
        style_from_file_translation(Language::FR),
        "Sélectionner un style à partir d'un fichier"
    );
    assert_eq!(
        database_from_file_translation(Language::IT),
        "Seleziona file di database"
    );
    assert_eq!(
        filter_by_host_translation(Language::EN),
        "Filter by network host"
    );
    assert_eq!(
        params_not_editable_translation(Language::ES),
        "Los siguientes parámetros no pueden modificarse durante el análisis"
    );
    assert_eq!(export_capture_translation(Language::IT), "Esporta file di cattura");
    assert_eq!(directory_translation(Language::FR), "Répertoire");
    assert_eq!(
        select_directory_translation(Language::IT),
        "Seleziona cartella di destinazione"
    );
    assert_eq!(file_name_translation(Language::FR), "Nom du fichier");
    assert_eq!(thumbnail_mode_translation(Language::IT), "Modalità miniatura");
    assert_eq!(learn_more_translation(Language::FR), "Voulez-vous en savoir davantage?");
    assert_eq!(network_adapter_translation(Language::EN), "Network adapter");
}

#[test]
fn unauthored_language_falls_back_to_english() {
    assert_eq!(general_translation(Language::DE), "General");
    assert_eq!(mmdb_files_translation(Language::DE), "Database files");
    assert_eq!(copy_translation(Language::DE), "Copy");
    assert_eq!(learn_more_translation(Language::DE), "Do you want to learn more?");

    assert_eq!(export_capture_translation(Language::ES), "Export capture file");
    assert_eq!(directory_translation(Language::ES), "Directory");
    assert_eq!(select_directory_translation(Language::ES), "Select destination directory");
    assert_eq!(file_name_translation(Language::ES), "File name");
    assert_eq!(thumbnail_mode_translation(Language::ES), "Thumbnail mode");
    assert_eq!(learn_more_translation(Language::ES), "Do you want to learn more?");
}

#[test]
fn every_key_resolves_to_nonempty_text_in_every_language() {
    for language in ALL_LANGUAGES {
        assert!(!general_translation(language).is_empty());
        assert!(!zoom_translation(language).is_empty());
        assert!(!mmdb_files_translation(language).is_empty());
        assert!(!params_not_editable_translation(language).is_empty());
        assert!(!custom_style_translation(language).is_empty());
        assert!(!copy_translation(language).is_empty());
        assert!(!port_translation(language).is_empty());
        assert!(!invalid_filters_translation(language).is_empty());
        assert!(!messages_translation(language).is_empty());
        assert!(!link_type_translation(language).is_empty());
        assert!(!network_adapter_translation(language).is_empty());
        assert!(!style_from_file_translation(language).is_empty());
        assert!(!database_from_file_translation(language).is_empty());
        assert!(!filter_by_host_translation(language).is_empty());
        assert!(!service_translation(language).is_empty());
        assert!(!export_capture_translation(language).is_empty());
        assert!(!directory_translation(language).is_empty());
        assert!(!select_directory_translation(language).is_empty());
        assert!(!file_name_translation(language).is_empty());
        assert!(!thumbnail_mode_translation(language).is_empty());
        assert!(!learn_more_translation(language).is_empty());
        assert!(!unsupported_link_type_translation(language, "eth0").is_empty());
    }
}

#[test]
fn unsupported_link_type_message_is_composed() {
    assert_eq!(
        unsupported_link_type_translation(Language::EN, "eth0"),
        "The link type associated with this adapter is not supported by Sniffnet yet...\
         \n\nNetwork adapter: eth0"
    );
    assert_eq!(
        unsupported_link_type_translation(Language::FR, "en1"),
        "Le type de connexion associé à cet adaptateur n'est pas encore supporté par Sniffnet...\
         \n\nAdaptateur réseau: en1"
    );
    assert_eq!(
        unsupported_link_type_translation(Language::DE, ""),
        "The link type associated with this adapter is not supported by Sniffnet yet...\
         \n\nNetwork adapter: "
    );
}
