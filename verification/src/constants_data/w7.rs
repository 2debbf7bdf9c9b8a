//! The raw limb data of permutation width 7: the `(8 + 63) * 7`
//! additive round constants and the `7 * 7` row-major mixing matrix,
//! each entry a canonical field value below the modulus, little-endian in
//! four 64-bit limbs.

use vstd::prelude::*;

verus! {

use vstd::slice::slice_to_vec;

const C_T7: [[u64; 4]; 497] = [
    [3456592035413222631, 15082085994371811600, 8966032743832851431, 2420526744088136688],
    [12439783567747264377, 2259044841039639909, 13658115582807049909, 1378929418172254292],
    [16460450546882843481, 12161277329091888670, 2459303021980646786, 1865639201081436717],
    [14699140980819402138, 7345762834583288121, 15443487270009351532, 2460110648044919991],
    [2051379564450038198, 8886102940148176372, 17075858758819307058, 216460953837391356],
    [4005187704398041326, 13248566568668233101, 5343014872025512801, 2494463708226552079],
    [18285330010954704501, 4564046337154461669, 1724512051382547068, 1022841555703171496],
    [9118709127063015210, 7750328075936303168, 14544263675641275964, 2462469647139169030],
    [4608558321395606214, 15070613602376689925, 14938378544857698285, 915381587356657705],
    [15191418532194074794, 11087552299833978291, 10023569932873029459, 617682117695457933],
    [11593167997674617969, 2609657447776404615, 10926115147578677985, 1793451464717178042],
    [15336916604195530256, 315763859645237650, 11365734727920984711, 2693374675952496294],
    [16571386152318497554, 15743686126352701718, 17228510974545353979, 2431630132710258470],
    [16730850713440121018, 16496026013123266502, 15329615525389640670, 3462735025777065408],
    [12047923600863841315, 9419630875070664164, 15936376330058313545, 3189856951892634217],
    [12420582804946492413, 14500895271571115473, 6803438039901464497, 904478048089232649],
    [6483585942808262837, 14745178823540212887, 5234039339263430032, 490754629979674067],
    [9408744425188296220, 1080293665793814248, 16290734888850451623, 3422996308071386370],
    [15737792652045557314, 13276979202061357359, 8863767995386007692, 855657500123221486],
    [17400811292719983025, 12905792858266166958, 6572110376919698357, 489846644505052505],
    [5873354431852346517, 4035716845079312036, 3651388105402755913, 3055678854213768345],
    [15579011801834012970, 9279934856403788300, 16097388118024977387, 2698344859362002712],
    [11203100297204383655, 7312099174243152263, 2240947712934811158, 268948707346826673],
    [1985721390352154923, 4121638849840671010, 14018576147718056543, 2599282177925418811],
    [13676594450719289157, 15783332454389188046, 3492666401928288165, 990621311417062116],
    [9666764948710475435, 12794817379799731043, 18395648798336990013, 2831645687703724103],
    [15059537502905815869, 2382915114689632428, 17094965100043328794, 2580351932284709872],
    [15908101896037570200, 4609674941816176870, 17646457467013871805, 2137706955199689576],
    [1000901000122340693, 11230059725064348461, 8180322249864610275, 1157486169484980653],
    [6504992972926801415, 15062393518645299350, 14333149115746082424, 2740141996146918],
    [17069881642259492846, 12335819634962300331, 1679312470958182111, 1374379810030389691],
    [1580780497572135071, 1614587624467890767, 12589029107589048179, 2317465148513389605],
    [8792523160678448785, 1053125421297719796, 15580515794142189711, 2729399895843385419],
    [13397127518125887443, 4088759658288909608, 11137701400792631130, 37331411174896492],
    [1365948931171088346, 11662492726116101656, 2778569392593884279, 2927408900848298667],
    [3646349113253789402, 499453432689753165, 16191390048914352081, 821788288547437074],
    [3644547030678677613, 10788702232878475881, 14305323154356411524, 97841594902069903],
    [9887369047767113595, 11612421376334163098, 3898412245718371049, 2017140017536769884],
    [3184535085450338211, 8566360004660189445, 10057296882584466465, 2077695439743634498],
    [2261844603172342455, 13809432871474696750, 8312454712701315804, 2390597479972143616],
    [12374004000430353852, 4001705424891207154, 15637528500701434633, 793893448177477763],
    [2799064191396993706, 4357128584384351991, 11345613571979041873, 76830735010482487],
    [6507926470335949204, 13945034242746366187, 874973623443841557, 631962535933343311],
    [3716666907109026979, 4955429275517281343, 17613379192518539095, 3333274241570917386],
    [6285762131887742950, 14169212578552445122, 4995793772497357547, 3319795227553711917],
    [4784980473329954102, 211828615679181742, 14885188173069173858, 1319455708024499564],
    [8231136740136021479, 16181255434814436257, 11544882269997147315, 861966505078934047],
    [14636668243874518115, 11913512418695899137, 14676450197792631481, 2433761199083702081],
    [1538490840437076801, 1818922837832365788, 9446418244071040138, 2400297478020593022],
    [14040222486179939675, 7095525419775268249, 7813576171490273730, 2323331945193744834],
    [7823511441712788386, 13992622484910791911, 7318157157104174257, 1921124000295276055],
    [11996389180732363601, 12646043357256717846, 4335604594076200923, 1158785087875694971],
    [10849487859181749080, 18002262397676555717, 5179652855996336379, 233083190514054698],
    [8076822026253704542, 4286937911430279969, 16556876534049040818, 701466644995992039],
    [12333830729294361130, 11081828246515005645, 16396905892384087402, 1730252093513270800],
    [5410424609554890191, 8922832954690742471, 18149141918005896657, 839366191646179011],
    [6898791763578949271, 539148861614137121, 15168590221371983998, 1701956774565291242],
    [10890705141891371428, 625361360299381000, 10374180205646893056, 2070715245964554328],
    [9813872519681908570, 9041297237126737376, 17737277454368741431, 3409420679096380336],
    [5259931054988756743, 1881655899428744305, 6941858844796517586, 1565567181530265330],
    [5867341069730200175, 13269886764439279525, 13905664544099362544, 990234730305332407],
    [10019637087352315262, 15535641592620027213, 9914660412434650277, 2463128548966858442],
    [11763087848428184646, 10453178095533759273, 3294371602906628185, 3080455839427260196],
    [6847578087019688957, 14958193149206065768, 15050197264772304494, 272790092939424512],
    [11351423119781999642, 11899083238726585288, 18390546042933793716, 2891945883822083832],
    [14040037936842503815, 14269651384334325956, 15137578940543065403, 172083162352393139],
    [14974188710862660585, 10491496555139703540, 548808362053579238, 1425502164119770374],
    [18367475931286781987, 16598381143289309241, 17972161556115446162, 1521935232577841790],
    [10937860073763979420, 17789668033774542284, 11879509493032764020, 2025610887537027274],
    [14396974318135564901, 338013263145674063, 7037321746888375209, 1743751355208970104],
    [1739178760886233357, 13669157766337958714, 11290836385436165028, 2789777057932230419],
    [9062217920416512177, 2400210142245991148, 5111475381681991980, 1474198182459410498],
    [3656105992090564621, 16663004615608053038, 12318202308709117951, 1946590300102368112],
    [5062869426608489557, 9896514116321300386, 11057282423636174927, 2432354986999609390],
    [6769699469660933707, 16037827950156700291, 14233755435525240002, 1266320901648639656],
    [1421916445230867853, 5237321144391774481, 5704734776130491419, 1097210079059570899],
    [4259868945353192887, 10689470057202351851, 3704371246710805030, 575143642662827915],
    [6597288910463644009, 2298604621097463663, 7209302884688643219, 2633777301371857253],
    [10050411823674916054, 17533103194256247451, 14884958335836432879, 3077458123102694530],
    [13454118179453098844, 16736588163394994688, 6120095206021972717, 2386595256189148953],
    [8299945808446782436, 5685330886795865446, 3420977776223231148, 1233339463347730241],
    [14281112647981752167, 5740263476161478806, 1997059912898052988, 1906012419282410042],
    [9052287551986632030, 4914899289370688720, 2938690395995728508, 2030659633780291153],
    [1883880555749048216, 10069461876208518794, 16022514067424912920, 1020969105838159993],
    [9987356572490803422, 9639104619508303866, 17470229137691614167, 3339003048300101549],
    [2634175975468764218, 11870562288747244138, 2331736113672697127, 505595533290339781],
    [10207126507745115679, 4003485015922834210, 18260836351543079336, 2566515916483036255],
    [8650000867693852360, 459383754469039856, 69241869077494918, 2729823141706356300],
    [3201565323577921549, 4206443082164378844, 4469824766534685955, 223952068847883342],
    [3289249922434596709, 11177994803015895763, 16118887014330998277, 3040905527361186570],
    [9008668525446494546, 10393535237470722935, 3983770851871616105, 3169811821319777185],
    [18249688483839207459, 11385916326182947847, 16386144859202325677, 3262081210883963896],
    [4043554387851019134, 9333851976694675248, 11724764117475053845, 1764241191802913485],
    [8580395805872240944, 3874191397884281121, 3850735895448070651, 2426496843831199916],
    [10069142704747257347, 11380899578362087518, 7795337277788038711, 1675287817944713920],
    [9923148892995414461, 1243793103326501134, 2966730748301074017, 512397321942351828],
    [7811046615073078264, 12317176161778962982, 5825631305211244076, 309130870655376357],
    [18365383396184155382, 2156425151401006489, 17331840425969514893, 1258432792959836007],
    [16535386613739829526, 6586431607019654654, 12780202150578025341, 497906684420084311],
    [17511929338713696058, 17274507646758100318, 14581799692505123754, 474754040200560260],
    [12412325213237259468, 6753197274403151679, 3845109566838948918, 600037831871200315],
    [9108223876178556799, 9319343980882006385, 7491066150288191120, 3465168869283827210],
    [11119233983255165710, 11998375185311265520, 1725727478617655187, 788139143699453221],
    [11783499067071869360, 14006126051004848213, 12553921083620262680, 345490153044867674],
    [13039475731364075103, 7580638056843208422, 14615480795083077106, 3373038630671541741],
    [14602619174246011923, 17925602600073378822, 5571710197376381234, 140618358553107820],
    [17925354797132715227, 6779168762923229052, 17900551679998246465, 3336407440978344303],
    [14228951914427194077, 5667107199590120843, 14290734883502651477, 3485787138696934825],
    [10078563803540962633, 14139729438715094172, 13385302556909583079, 2802801797426024253],
    [3173363393470948698, 17345817983750355297, 9482080477881718472, 715756366571838454],
    [14636089677651558412, 5532378372993429643, 1287701112828315385, 1083264823012073692],
    [15401762456388935351, 11699182394305487802, 8608599134432390184, 1244576238221016178],
    [17866764121220130989, 17837666698956798080, 11677760716690143011, 354038032412239877],
    [12047216519230769094, 12576499775683013889, 7914069010245524122, 3256088437586968614],
    [13218001124693825593, 4439212637193210460, 46601994993162866, 2573665010513253634],
    [8229101718933703727, 7514687412441104834, 3291816895169140109, 3231001527939154041],
    [15741917012866651623, 12647116272760039481, 9282138941144681604, 784148208597780743],
    [15273255174980140016, 17359159824245108850, 8482115810652249486, 3119124844882677802],
    [6215166766505124502, 7823410768143848099, 6283987254495457117, 391714038900077244],
    [14106651779670321275, 1016136518479604828, 16896699718435676746, 3372036825125809272],
    [1146436754000045775, 8731353703728207530, 4311765522366503285, 1454754771314932021],
    [1742368872529669083, 5278651680466152369, 1290972525353405239, 290001849778739616],
    [14298340254454208074, 4956261876015631978, 7449137207143947654, 1157251341535756821],
    [7451362634790721245, 5693307366377229311, 12035126745555761919, 1788828121464048506],
    [9745697787847051356, 18116485819794858109, 17991935855480065209, 1139300247245888085],
    [10950344773038096763, 17451935774848501684, 3958492408653091521, 2688508374211479076],
    [18234352273758736737, 7189145074354349272, 11967297573549757385, 1646321155696597520],
    [14934090925235427972, 18127873858534835429, 15295319869265066795, 3011032773222860939],
    [15310928365931896057, 1972317188053195334, 16943522386540844935, 2976798541271547275],
    [5106657323638158099, 9559472361918555816, 13470913264475058549, 3181497403295449348],
    [12094016905695265995, 2425550833801696128, 13449217207886421616, 2528790052525600893],
    [10081806543146562709, 14388162366542771043, 9014993325623303441, 1448248519037624095],
    [1688466522856684420, 12872024986903244813, 7975877133900242388, 1617991142704401062],
    [9283842697525251376, 15907556237918035393, 180144873888643924, 2963251379232684152],
    [11272606314818591692, 82072871742248020, 6611354323871616405, 3392057733114405483],
    [11152558839719140578, 10223519869138838729, 11636655319552554971, 443559306576333337],
    [17555758059173392325, 3469268539515755865, 134983068579483888, 3378429135556701131],
    [9771791539308832603, 3380769391217356765, 3454071977952045968, 1261053612872135669],
    [14306620713794070616, 8751954222166594412, 12072438949738583698, 3485859582955628171],
    [3113386807956008522, 6666067333282762223, 1239299548773746963, 320495797329895102],
    [5135134302730326799, 13805223477023043003, 17297299689487828235, 3355030756358832512],
    [1071376457402591908, 13247415990572696872, 5346897434056406340, 2176250451600899104],
    [12249213215178208317, 14866358708433767214, 1905785285534721638, 1725492352898555129],
    [259951245517055689, 9383829278008163139, 13016761398854329693, 23782970979405375],
    [5959011712239816229, 8166058607805892520, 6687024426320983033, 642410335777963570],
    [13710595077514963163, 8360052682288005582, 7438715532045914878, 2845347385752889112],
    [11382960934982548279, 9258007793934024886, 12155393773353435171, 97368895636811187],
    [10332957969684648526, 14410161501390907457, 7918869410055629632, 879126146717992085],
    [10454286822937186847, 9038125561468005301, 4149337834316406178, 124781150901674739],
    [15836581757314074057, 14865288749338807043, 13327299141070598707, 3036328010990604195],
    [10351860623589734278, 12128215007956639987, 4222976594970709487, 506556917224815312],
    [5087768033710267572, 10210850026029143276, 839561129185092974, 1745104534484381379],
    [7786749678354132219, 10237818439746088419, 5181029244073590553, 2614465618739882885],
    [15936799951622480373, 7466021715322755581, 8507746344238949487, 2328274666290841404],
    [11202204972235050030, 13799464371317606109, 9004568117947977986, 391622967057813244],
    [17586532533095832534, 10005024358939886069, 14103197033267329485, 2158557230967005022],
    [8967593428290732903, 13774420730023091252, 15307196910137056275, 2304555256584868181],
    [500676278489131556, 7205470368755386368, 12730504375669351707, 643512168989943097],
    [16389386048642688613, 14882895283468607204, 11810171316821782399, 2031265004069860146],
    [4504083076128878419, 5118441128180877115, 8476846498082234267, 3298328196631966367],
    [10147949262946276535, 16805284154550727510, 15789452064767214714, 3209881938623183719],
    [895183239445067743, 14386476875523001010, 17741447681015521121, 3032465814838649420],
    [16582245702868680937, 4719295655811773119, 14136372786117114743, 2166144343937992081],
    [7463824008966646589, 15466539229934442478, 8700237522508500956, 2666488122285503485],
    [10969130866876219237, 10771112791064538402, 6936735620901955632, 822821629697795530],
    [9130574065001961193, 16511466144954516772, 11477216618270919763, 3449582760246736470],
    [13716814818119758732, 465322287755707491, 18182636708978022547, 328592010308352902],
    [14493952069507303474, 7844169830498739379, 10439659310185485526, 1089914778933183780],
    [1717081895651184529, 8990056902963973823, 2026838915684115988, 2982833780756784668],
    [17775805331614065017, 9217200497158145213, 18250697919787645688, 1258352154220278651],
    [6781228463872903571, 14032936436382495269, 8912357192276285289, 1733647016865184327],
    [5370199124154976317, 15447173411832112264, 6544344281316326973, 3098175054860277544],
    [13592536134410340306, 13014637251472742977, 11014623211185052415, 995887638720438889],
    [11359952217393219938, 5103079597760931398, 1558149404309902868, 2099164100331262192],
    [8828571847102232578, 13840897166994512834, 14001799555408705602, 3298214155003583704],
    [12366145109533782922, 10503569796059370771, 1853909261339610951, 3239826495733890825],
    [15142877083219481777, 9496256311439424235, 12249473134176494688, 3412471036532043335],
    [12552643150273251120, 14298629308311460443, 10480091363746155957, 398097051179744582],
    [14596795496166664990, 8903378031744632529, 1950740206407938217, 2987606875317650636],
    [12690065054697627720, 4293712947776804861, 5862622097688050270, 2107598833037637579],
    [8913661957092957584, 11587457584465429704, 17163000808013615681, 428681903381285429],
    [9832599699066558712, 1803165349577212210, 3048978116373421250, 2253013763121899016],
    [14860155127887993009, 18195876315125349811, 2225760069343562020, 3257669870217644641],
    [15761617207541587181, 16674320975043497928, 5849946365175867119, 407745429095286712],
    [17782572231929168350, 5714605951186976093, 5712480575845315230, 351960973229555991],
    [8309380154468448527, 16971587540515534780, 323728962525332409, 2327613877947362334],
    [8496747135983952101, 8947725841171346278, 7703700095944197179, 2434417842702992452],
    [2411545334498078399, 15464849203980232470, 5653054514714658486, 1370147146937072204],
    [14182769852247999385, 5020642342051525591, 1457042457425244475, 437836784528441071],
    [13043666079777052113, 141037950545602715, 17831406874696225449, 1092058246202095860],
    [9810943496440757680, 16900401164270806328, 5987905840707828528, 3219248853220238887],
    [9625773377514865329, 4443217323362866629, 8315441025686887246, 1637944020296813811],
    [5021513803055331921, 18259586829484144558, 8518160222669255243, 3003871315503313612],
    [10891303680509653351, 510180033885018131, 12044505966349387938, 662760332898226755],
    [12452544344390639869, 15857384663039430466, 5149510391448358091, 338192246258831596],
    [16317234872763972305, 9144897874840732464, 6785020810402524655, 2994050498649187523],
    [17213946524935802754, 13252486445225020423, 4647154228960834257, 166253745392429675],
    [5609572952678481293, 13663754374008066111, 6890526594345807346, 2498998728757892367],
    [2481587195790683447, 18302934283068228238, 3407782691253293841, 2238111918782593834],
    [17887889609399731911, 16720792061988981707, 12610681922588292286, 161151435266257687],
    [15470648047961291221, 17943676566346871770, 9008548372417711179, 3065197512189344742],
    [8136499541303259774, 8493556857508450580, 11869746443192760770, 338038855513802173],
    [906097069252097182, 10308876547573678736, 300167152268482493, 1071264773553989549],
    [14197161255669673153, 465463668440214813, 5587051822932261046, 3219137816337887232],
    [12145342531593768428, 1166683757061885072, 6212453275009283955, 582920610890522413],
    [6049661835627034912, 1939121272652997933, 11240943521387854830, 3384702116388172468],
    [14604961006798189743, 3328254468960577772, 6943937041496861632, 1664162023058545338],
    [434336828179878984, 9467752103246551071, 6979294609875450261, 1601414587754194998],
    [4863516691582542523, 14062354363850265058, 4904357816096420362, 1015351194429438185],
    [9681725187590444034, 15050195843048247396, 2388974048303913339, 1866477790022897530],
    [10190475879252191534, 2525370625909952367, 13667057592077516695, 1027748920242094765],
    [17535602931301884604, 8479175822886332671, 4801419665554522456, 3208999653118607802],
    [3315147529230545974, 6860017924377889277, 5956506242096792465, 1233355332370693236],
    [2417008685536623338, 4123889919270107809, 14648226427947744837, 1181195806325184441],
    [2609075152434982971, 12379948446274069623, 13957764051751149620, 1032404314825467985],
    [7086671929008669512, 5985426685767314466, 3986977181026068010, 2923279857469353497],
    [6323936188516347107, 7113999419409619140, 5601998296961521410, 292856665357303735],
    [5551143378483257317, 10575966208704500479, 12937461220648086797, 3059041577954159611],
    [17087362507994004575, 7946697022606373530, 4285609980600373855, 1792831930713970969],
    [14185643239397012613, 11472245144113725488, 18165942300848772866, 963634646911465974],
    [767808177925063746, 5926361711255161549, 14283816120606044399, 1019261625602300457],
    [9256606373654452634, 3699799203779203693, 17148568839753567135, 1117241341610067388],
    [16678016336378811445, 17235071902065714854, 2641588500486586499, 946695631294606988],
    [15526796977350999495, 8592482161462675759, 18399113963746574527, 2285256764043294991],
    [10412712077801208808, 3078346925754039334, 6783482768224252012, 3173472921118658983],
    [11916106259278710254, 18240382638158138475, 14894724550821825221, 1431136686418761341],
    [15739113833885925980, 22152145797742629, 844580775101623465, 2382308233840721603],
    [996351385116712153, 4992970427626877515, 8285426498707434165, 890862346069193818],
    [12138246558623790379, 17752325241884048531, 71205187846298039, 2242576855710130996],
    [5261177161279419105, 10607966569812704599, 14798335463754499454, 1769649573990365955],
    [3134734930931018892, 4654231690038242478, 8640403222416618473, 586461354937451563],
    [4438563449728604927, 4133357726690998312, 5245114189759430089, 1146190311034834161],
    [3847893292242450182, 14748784974549881494, 9001556681649330418, 3383927223709149853],
    [5489760697448468305, 18188412712822353437, 5572873544794852731, 988206376479955871],
    [14630688315135524102, 17472249808403729353, 1774308306803784578, 3033537509596872488],
    [16654336817232514537, 8282945082406273207, 17622500211238145182, 785097458578783562],
    [15072339344115872983, 1295629130437179087, 7677417375006829797, 2591375773501617362],
    [2618396618358761223, 16592952026299985202, 17193142179157766960, 1404260320019649578],
    [28042767350926386, 2456546352370224469, 18002660223864052331, 1763915492755774253],
    [7949657044176125221, 4088031065768279419, 11773658707080435529, 2531355549710719378],
    [15215092944860179811, 5231977506405426772, 11314884151103634582, 1104732011936288250],
    [2306638837948882892, 13264059218792444582, 3862827795700392347, 2582878573400980148],
    [18070655463667449462, 14637525915374903643, 4229074532813638978, 3361505007305358424],
    [15996819985574365451, 17313247214572008846, 2423876318348275009, 1653805355832727624],
    [17405932615576402691, 13731878014073133660, 4794273496616997649, 1409789099967602746],
    [6165444736737481146, 7554238263295000927, 3515269672368955659, 768890666051437680],
    [11968456337635122939, 6190936668835268053, 2289655809303991458, 1590195601099932508],
    [9335471191353032998, 11415828689488906834, 4764349945829486092, 2583753601946257682],
    [18342930691964280988, 8300646067504815596, 187353040216362913, 3396099377637861515],
    [15087819447289611794, 8712727920393867753, 3156487885742737123, 3110340381867310799],
    [4838168054533929035, 17400511451637304235, 3222702526112561990, 3415468275116498818],
    [11991373469178010112, 2725845956713220942, 3189230416759775194, 608248368681693672],
    [8240203773462785964, 4653144033244576133, 6757282909693395252, 1626952715682312943],
    [17035030138422248309, 655782182133313105, 4156078933700574132, 152344698690093059],
    [10247030333518269179, 8048377238393775319, 7700523460977585899, 1361314446384522763],
    [3988519891959297352, 1526670867425155440, 10102854999727135863, 899741606204855837],
    [4693230854359200049, 14116616747576205728, 17288017150123380019, 3469152197730600408],
    [581450548907801729, 11114557770390915796, 17091551745394444176, 2547197975316530972],
    [6525367881300392560, 17111898954757984540, 15669412731897959976, 1495063540346109983],
    [6220750058060462291, 17880997998469523039, 4475830987331398979, 2464354852477849353],
    [2807229592150517118, 13259263254573634962, 1870196027902663122, 2565462861109061280],
    [14526141729541154606, 5251218441866872155, 18083193679793083488, 134196841940583806],
    [12022213194605313011, 2782142837678984352, 9774181961886745454, 1394325879869748005],
    [3840787186887689191, 6902016133158538247, 880386015229011912, 765299224683363660],
    [8446811730725438001, 2992236768793059634, 9847550984789603820, 1261338971664227046],
    [10406095087029383352, 11012440243779843479, 10690850114546110354, 2609217412599990661],
    [4116079978258034848, 17990388069971093125, 16886581936226906171, 3166066239390947233],
    [13457579932791439396, 7614553333243813375, 12062985237243178562, 3237925921222336151],
    [8625440937437516841, 12667025319688233672, 6985187486877788103, 694414164095989490],
    [100690776922777549, 13806602721166264679, 11179704991116015883, 2294682042652689724],
    [14622426472235327121, 7588671397561235707, 7108594758702475422, 2614377490431321464],
    [7847155660180824453, 11841648000559235453, 15571242343468746624, 1163628797135738922],
    [5136979547538731336, 14515544308171765970, 9924568640048159807, 2675270290365240020],
    [2224613762551805117, 8583603438677220416, 10254588711932918109, 2946316655498354555],
    [11487546223735464293, 12356963491337973381, 17166493059647471716, 522151382342685763],
    [5500368119229334814, 17905075224056973544, 7300691476873018007, 1496991151783627007],
    [2010473316615961773, 3251336809374215953, 5739143523923385423, 898034506881723591],
    [14507766337270428492, 16267738251745347204, 15569801822141285595, 279132457321835630],
    [9276620133866628326, 13968455492829996916, 9323854674740387855, 2310701209861970968],
    [16481372078627922461, 4463219153557404219, 12467833548794151166, 3018589679893211711],
    [11232292033030072342, 7817264867969232238, 13161346759581424363, 1422926622046917809],
    [9494313194533872634, 14538035514510785824, 4460128942231822216, 1749548276920528097],
    [5632134683047942695, 6868542455124138548, 12655083919665278996, 754951444627952516],
    [15476982493290031213, 7657691862663815104, 10668182180756287472, 1734581618176942005],
    [1248073855338379843, 8691089635822131936, 11776131340369692155, 759541875406466569],
    [11778342680039816426, 11242809207490904890, 9798643698557313842, 645902336920477260],
    [1171586749349068279, 1431460008091800114, 12225320502221755864, 2451843591550702311],
    [14694018479861964028, 6475991265129474330, 3664283304650526163, 110002795805620844],
    [13623957310876906224, 3730678186490832318, 8969421209019748565, 530016725476745596],
    [3850590765685560744, 3213099104686569850, 4065012035545121118, 3100403131132502556],
    [8797787759620356843, 13900745001237000884, 2888527775298917607, 359281961801839684],
    [9956398600703829659, 1319089331989940738, 8158637145488789323, 2730486037962269404],
    [13171512369112704944, 11908363229442664585, 10735922937308227507, 41871922591198645],
    [1434156019693471049, 9822478737706040996, 14802139887089273774, 2833188690622882310],
    [10274919360049990585, 15398983535338241306, 13378179574671753630, 1466676820477970317],
    [15723196569880057330, 13106905502009573731, 9538309032825757785, 948746648251864701],
    [6958275541437211842, 4333636475694234956, 5326583454838611452, 2603990333957894340],
    [12064510455239497319, 12412347982830624086, 9398860893786035781, 3194738900276116636],
    [17090430209043138958, 17157158454666321555, 7295856029210294454, 1835105920714710137],
    [16504524091493589665, 850733021546942506, 8574677846165768172, 1731478044822977252],
    [1620125799459682033, 16143955991234772299, 9236810009182137033, 2018185434254878544],
    [13680687893310501822, 13729378636947990994, 9829576652988611487, 651735693446618307],
    [5914572552647057435, 10856170618773604310, 6458724887134062527, 1818729114940314859],
    [5667714663848650961, 14404574347344239190, 5700002488268857646, 710959319811591500],
    [5323650660868406815, 7526110513096299413, 11312525667301687665, 3461612068508097818],
    [16236163225601504368, 6493875660342763542, 8483446684162199070, 1522375613391764384],
    [471162513087756358, 3724077876375785288, 14304111428254442114, 810403142656614083],
    [17287939446828213463, 13012918013361493152, 6244502770916151518, 362986860981941852],
    [4151690974873025245, 10149249399399876230, 4274358881373678789, 2568620957576329551],
    [17778170182071837846, 258797005471283155, 7537001039700679712, 2099253136069071494],
    [12804055283424199137, 5151080371733105282, 7869572400204319011, 1852277204031497122],
    [6645022940618993274, 16281178250380923972, 6617744772858381751, 1413546190656531273],
    [13524907338458575909, 16359781504306413790, 15334033921704771593, 1898968232242269959],
    [6888533899253285022, 9856464736635625058, 9570334743265030613, 441884382139894677],
    [6629184179745511101, 15322284711727675491, 5332596898104256239, 190308064590500966],
    [5585667636010301853, 6004777619586685192, 10706319394308570497, 2436365259962826855],
    [11057972066363399622, 9496931547337528847, 190505288936862365, 365161639386843554],
    [1472895192702967734, 11655432861829919785, 1333752861998887970, 3332756206386636082],
    [13510689867542519822, 2852748896116139118, 13116584999801335821, 571585342460153690],
    [17653372574576138637, 3624593767862207495, 17439379827588352211, 933158032740929709],
    [8462438382226373817, 13141205442723359995, 17411687643655052328, 2917312522026332947],
    [16996034548231550117, 1413033102711012415, 12837055335796479637, 2924033477873350834],
    [9331162546284818952, 16769693232210614260, 11692846186169579224, 2962201063378831714],
    [7983810463818591091, 10736469156597238093, 5537874494129787509, 1013402590153806400],
    [9469911398498444773, 13258501493213235743, 1313617240633722146, 1035994974249913031],
    [5493899437499539185, 5761559763870368185, 12152970863201945514, 2521371986236544943],
    [13790897522209808625, 3193958689495809767, 1110507242993083916, 145475922524919213],
    [8560629049594469403, 10128526419535054638, 8579644365615609425, 822580098010944824],
    [667205183315067859, 13247166039768944765, 18042345543280558718, 295160214661712640],
    [17866308855892208700, 3320440802269250490, 5417265075562179756, 2575078539650443090],
    [15332958455267883542, 2699586516962423587, 14289140829944101748, 6737420856431643],
    [1561917424093291188, 1655387573375567215, 12936448724131345802, 211776141644368008],
    [7526357336233160229, 3880551127705655400, 5333971909157415841, 2244337760845592423],
    [11213054996751340459, 11306929592880431356, 1551636019507827988, 1824873702575551990],
    [13751235608984005149, 13907273515747890637, 9658856303240153171, 2827732806745310301],
    [13672366906493782600, 7938876386281300312, 12614346625364077927, 2647288436605706135],
    [16084861297664747573, 12977885874172552016, 4631276929120427116, 895775488191004959],
    [15565408813654115234, 485272573176332019, 10237415696937686327, 2156682515656619469],
    [9255559221751229772, 7709560010130687872, 15743587567461197281, 2008829941213959823],
    [1060434699212937604, 561416806352423000, 5485802615892222737, 1892807890214807718],
    [18060496628798461833, 3291928375809843224, 5016827298698279614, 576768469086708362],
    [3206736533387661686, 9013134898123371190, 1093355187035756011, 2642375027732874590],
    [9568247811262612726, 9381563134593252774, 231428036670375950, 3122873237060797957],
    [16277379050755070810, 14508929695573379765, 580948743806156119, 392765259351882544],
    [3903707463098605461, 12529973605908843737, 13545408149570818590, 1994761994396902892],
    [9263189706175616129, 16204004899478325757, 7307241866332168155, 57662158045516759],
    [11457041063069751568, 9482656530725499965, 16020012448801033959, 3193885436491062877],
    [14485023447735825749, 17675270244714471743, 2063930304387603775, 158932907647729454],
    [18291378091388187699, 12235262777669757086, 1842170649977518411, 1741569296759959758],
    [13354595767468507093, 2296257049678370765, 15551392319505386983, 7514869310964690],
    [11697794721284326232, 555102261785842746, 4212601104231601161, 2336924905365654545],
    [15306513978939525307, 9954674475336429943, 8922534375560747129, 2846675922443835479],
    [4166928827467283596, 10747474019059960712, 2222050282630810431, 1621496194407326699],
    [5491898699109723765, 897817438737002474, 16105493446650919961, 1831606880475051560],
    [13706985220516115590, 14308911335461589428, 7513702566476069727, 3002506085227282172],
    [6131007849712625753, 6263910649747519714, 11733670113081996416, 2471605471666780205],
    [5751373796693398943, 15119750916236077094, 6319332140379338237, 1827930051991611851],
    [16829639016020932672, 14831913564934535260, 7907507370976506444, 1053383503179452602],
    [10490433991394286369, 6092516109632400209, 4905242863639058305, 1843601487152808270],
    [16256020170280461092, 1155340632706796286, 11984923044161710817, 614188693203634303],
    [6223868385501647437, 12743396310383239445, 4459183944577343737, 1402341458559535538],
    [4810142721616358273, 2668079371193803353, 740650120673679015, 2497464588973607504],
    [5069468542550535683, 11747755320208756457, 7593883583110031946, 1772270479603069345],
    [16199822322890912164, 4641569358874153027, 3364550386096001453, 2403605247607985609],
    [2466239096672521265, 10988813044961365460, 13296159280881395458, 72892726623056019],
    [5660455300718323495, 400709101715041234, 12360276001225457733, 850767326320238832],
    [1236736486243760715, 820261313116766245, 2379094821372873650, 524096927522121468],
    [6497047390990822998, 10998163092338741587, 4376926754414268585, 290163558233431149],
    [17111990934733396685, 4378198863147206647, 15833080653248232996, 2771858313606107240],
    [2141268195313011160, 1667908688792940196, 6290539516121831819, 2672048905864804554],
    [12121384157962030191, 7955571838383732316, 8405861863451182527, 52790934521266422],
    [6521230296671375148, 9180288730863043677, 11642611326368727046, 873345663359435732],
    [957386088399374119, 14607541147905633609, 15958847592631174069, 1889668094351104849],
    [3923375145157746936, 7604418469499319956, 14151346964812051084, 3146560197612842512],
    [10150334548751116257, 18339489982338260001, 12479055920896569266, 3348300571970595407],
    [9325132138530565574, 7154777565209221810, 1618836881625838804, 1544109151323251856],
    [10613252628248666908, 17717178868220199218, 11366457765927488325, 1260778035207377579],
    [12251052330442189004, 10190151184387699986, 10584259823539828384, 803922622379379226],
    [13876765604202153831, 10479641234270893806, 7467872394690318220, 2028875439314372965],
    [8013159841002780066, 7389234187565271723, 1449020047378896515, 1297446626836970778],
    [7415133599180483910, 14994618218283194164, 11912986270922583623, 880368309394524014],
    [2666168965251371448, 15580625285018552924, 14054505691200756794, 743251393573922992],
    [4680963051238402701, 14669516937609365411, 14083591527888848771, 1346475820521665734],
    [518107599322159701, 17651848738499413054, 5190769567582111510, 3025354533733125376],
    [16513053984790794664, 16536580939448404689, 18286045589837392247, 2326385855504764624],
    [14457909562457110095, 3567398280746613777, 16760633977430385780, 46940497426244995],
    [6183432690879390928, 921711564936487766, 6332726951217257578, 1581997857221755669],
    [548081376298168815, 1473494993395045214, 3976706444706600351, 2863194914987892622],
    [4153348383331610300, 5085298942351170097, 4089501381752939745, 1886657813074210478],
    [9127612178466390574, 13194178380164089181, 15015393982109655088, 360078836777133590],
    [15242172218114329015, 1488866706425161651, 15469256071779722107, 3399178109359506940],
    [12417455268101931179, 16891335343462180902, 2115690319975655679, 2491155113056340252],
    [2534174862454190713, 9804726988001389948, 7404576769541560653, 1216720424967862018],
    [15386192860617840716, 18034017458596344162, 10543573209985890179, 1662445730984248905],
    [16446493643488517131, 17472276713362318509, 10278799619248144737, 3356895416442630968],
    [10358824753313080522, 1368075279143744934, 15683848555540638230, 3199843876934651381],
    [914505309750865346, 12732612038768155595, 3510241407196609639, 377444133075410823],
    [15143283764264557414, 8106971950706646243, 8547177641034627465, 529019648570360791],
    [13803604408067312146, 13357306532199558381, 9351076287137656134, 388324568126763183],
    [853800034130400981, 2083512912725031383, 5977399390480307444, 1065392978464326508],
    [17799273795588319894, 12623657305459129448, 6616886632248214703, 2204174719912360750],
    [2635781855238122840, 12983876330079159720, 9027893774807232997, 290555104606972842],
    [6001893312244132215, 2801380095174481274, 4414068252331444628, 2904108547774280593],
    [2563717606863079100, 2800875452114421014, 3710782233092597633, 793845580706643162],
    [5931350277934498008, 13890217372554693788, 8744828093970814580, 326114193066308758],
    [13154553237051698158, 8825927447307609212, 17993891808928807729, 2717736021164077822],
    [11642483599152162984, 17781831284099275348, 274437177345118837, 931293447288265095],
    [11211732197450031380, 12219810179628076195, 10927525490379539590, 3155955341804771148],
    [15847478172819924305, 8676537221245130968, 11007064387913771114, 3304286136776101732],
    [4061956377172557480, 4889247003563060602, 5190144397903475999, 2756964529931092963],
    [3306758818620985479, 17806238293679591498, 7210310180898020975, 2592593101722229703],
    [17624012838555845182, 17723569331432622757, 11327256461712408375, 785012882251036491],
    [17108616091900911638, 5741960730769824706, 13758569084301402979, 649448646532490868],
    [9502396423114940146, 6158133042570502, 1409042266501128044, 2889035112168662207],
    [9182028007105600681, 2991401559272532641, 7780617631829190930, 3313382144001977839],
    [14882510163959291703, 15369835511675825141, 5897042315768932016, 1403816706964792256],
    [6003935873096329861, 166131993256405963, 17799466199213227937, 256721429537022602],
    [15365900433773868373, 879292157961523690, 17440075636329277089, 3109836062712814674],
    [2199097427594974168, 10916285490995606824, 3184809768326671724, 1315621170290109723],
    [11060196624802406127, 17577241504441374093, 10752044120314472422, 2199604852922282651],
    [7252399010623525818, 1704928182525351959, 8270912234715066615, 324066844017720149],
    [5575953624016625925, 3860659600500396586, 6515201826874012249, 3280873368405309261],
    [8771560802343683248, 16064067769717593961, 9251659244739282122, 2831534164784432581],
    [16716879357900317761, 15981743590692719958, 3534539146292820717, 1695987323098276981],
    [8510666531665949760, 10157234312936058133, 14902581704780830871, 499566522209340917],
    [9575456954205376265, 9818637722516113087, 3862368291831787410, 3474163319226617437],
    [15553040963850422317, 7231814355517863433, 6516637289395881080, 2257102662370105196],
    [2576438786211929707, 11258392623492011683, 16214464107718221555, 3030465381769008812],
    [16249846991571501967, 9170253775383542208, 15244384309058293004, 146532136463716158],
    [3705244312837424322, 6327538810841901411, 6017697781820257940, 1696858507381794264],
    [10109425577983875488, 9033391512740137458, 16991473436678373763, 3441326030606712214],
    [2545870929004229164, 9083515572079222663, 15397006266015552475, 1520600649361259284],
    [7536126496860927102, 12470342186032379190, 5625247378804004216, 2726390924827781388],
    [11469606562025462999, 3656816480031504336, 3467053275975943640, 1575511771052463145],
    [228402116245936561, 17600696349498248385, 1197908442720407725, 2553438302517038218],
    [14247957881386179869, 2329340223347035731, 3928987974811241331, 3062671688816152096],
    [18445581365892162424, 13889516525866134547, 2928382046805895020, 1284875584447675190],
    [1127393789535594822, 743933875578193153, 3028611062765981568, 1335809384403943285],
    [3436621751636128515, 5261303314525193196, 9017747553474829470, 2808067698487170089],
    [13679103983225119593, 14718021814082305337, 1506587091291474205, 1554950893272963107],
    [11529548577192213215, 10633719468417381477, 8549731915463053623, 523005167584329093],
    [4957292439371737343, 16030895420014182499, 6031844947140793611, 603549807068543827],
    [15157875512190650997, 861750510429733823, 13182702557829956568, 912567239606964993],
    [4445974171393237777, 18063951517194766171, 16138784914302494326, 3271028239494881415],
    [16822836537035426948, 15518776268896286214, 17291280774335245825, 977919593860937450],
    [11779953268826606662, 4540489301761540122, 15988888924939486253, 2610605900762905253],
    [17933826198344040856, 164143701574621958, 1070231122634213155, 1622446919887517139],
    [11858373770230075115, 18330576964964915939, 1056107742303245487, 2003520124724957613],
    [8945012010498996489, 6132758482477100415, 17127378000538180686, 213476769466065341],
    [12675847040339056474, 16972591438239814473, 6422960055958421655, 116926473521772586],
    [17656583657383707566, 2757788319645272001, 10121282059974831139, 1826803881306816237],
    [2660812709544063459, 8008686875590539467, 7484892556115785230, 735955515744371045],
    [562250715732604078, 9348280506124081094, 12084103543341505854, 9327993023922046],
    [7945110159520031443, 17510095960443343371, 8210326231842774014, 191147114115810079],
    [2858282493952711329, 3448793311767760851, 11684938984120846789, 1134998744778556935],
    [17256466968983459137, 12806437318488955823, 3668316616536830002, 1373828320489730939],
    [4654081998327953630, 1794317929290822837, 17687355740356763154, 2016164461354166528],
    [4815242902780597994, 7281295212590738849, 6989353940606751637, 2936499144479695892],
    [4439878028623010057, 292531659412677142, 9170690328467488555, 2464070352841919129],
    [224248855418926752, 1461616237216028304, 3007006259296883367, 454209659279444223],
    [13312355953720448677, 9419030792908411293, 7719975341378353772, 3269010940870280089],
    [2198876062838689291, 850531822032740697, 7982887583897049710, 2752086183979653670],
    [5407155406948757998, 15344378020366822005, 12331940141751401202, 529497562352712926],
    [3792235194745868074, 7916629694732445597, 10349456940464548233, 711906295134711894],
    [1467256495502850236, 3797149717395424826, 13094140691555520292, 1434817404242734444],
    [17734092504130984656, 179262552135900081, 12835747313349266083, 418048094247423822],
    [8188585042589285860, 7341361526321097126, 17428726646080093830, 26147640483520986],
    [4011557488786508987, 2236210281175041461, 8995818485432213431, 2378752092427736550],
    [9328031172177127720, 14211661829531335343, 2062736790733461106, 261068555181322745],
    [9645649337855559109, 12626514606372376392, 13300944590137935590, 2470149683653588741],
    [11676477592994111360, 4784901363916634382, 470529289083479356, 2863382715765471696],
    [3911503170372622088, 8767440854496399013, 3193552663376130861, 977790146222421926],
    [9599411781249533744, 7474520097980271872, 10216008661101420785, 2353672711602579000],
    [3629248366953965755, 1159151394295431728, 7925368999560875034, 2527435600371668604],
    [17126556338655827060, 16547826864519410901, 14335692977225909491, 3028477779193825858],
    [14932440780670112011, 12858510798093816146, 10256085214835979773, 2008436912667753848],
    [17681989175900950713, 13718417427154469388, 15993697914104155473, 2836198835923874616],
    [13770549935322857750, 3169706423450274645, 11673078700919421802, 1603586396690310660],
    [18229270032996063656, 11775897196057401869, 6279315998546154018, 521972013622829685],
    [10318084412429230383, 13979942642638259843, 8396191604060295061, 1199925525970117149],
    [255906782884073142, 14517946923618276207, 12142030739953173324, 3009959647715560616],
    [15354737924199492634, 18350129422831340893, 1274959722681111926, 2539483692511997650],
    [7772882986632001600, 6587319450239208007, 7369024384719140447, 679933123241127037],
    [3572167687229953364, 15542469768670748607, 13349719706208103926, 3442871066977717288],
    [232174424184193594, 17256840985863145693, 5780253557895807094, 1993985047457378632],
    [11512189539052084354, 10729088714602738342, 14777592478529733168, 7939738998681814],
    [15982313722663023794, 11789548200771174759, 10057245503569510375, 3148571385884413195],
    [13323936732290851506, 4768645947316177680, 8096235138843722053, 1916377729807433310],
    [9478032939310538807, 7708305423095714803, 3146208612275921905, 2816108208975179708],
    [4490346117634607824, 2303570822284515253, 13598627158040027808, 1683506786630675440],
    [1728259036266419521, 13724448766592292236, 7166941493077249442, 2323264058049656303],
    [1905729637507640312, 2693424616131280195, 9638592742064073121, 2763710422190591145],
    [1331643728275343272, 3110528642950660508, 3376291987121022658, 1392853494950989452],
    [18058751243944271837, 2912810216360247067, 7325289649340435688, 2407809390828183258],
    [844140213795324646, 8129457459516520774, 3165339742395123117, 2920563783199610469],
    [11506209326660623533, 16885025799963681953, 13181539653418555538, 279996693679472715],
    [10693315393099403542, 7440305535729700073, 6682801835513045272, 1039713707546811974],
];

const M_T7: [[u64; 4]; 49] = [
    [2002489896936373917, 11627380965973864017, 12257054355012123199, 3079791540599816841],
    [10044094589990287046, 8314399418033417391, 13155444777092340236, 1966882851745758350],
    [2210898060406194051, 10751944998882491641, 4348252202607987284, 623519555060098025],
    [49262085359240181, 1962785914585118244, 10527325723873512379, 1122862618166969812],
    [17880542846394003673, 4892817629059699408, 12672624504155528955, 1652846703370851112],
    [14460811345531593751, 6190435757384039660, 12656849930297753125, 2033681060046591996],
    [6264570190381208215, 161801634846616592, 4484569473894547506, 42519657002541918],
    [1302662549384362377, 2849490396810410631, 2792214394978316632, 2299649141446789028],
    [1150362438982126532, 13321296947619202581, 6821906295048910754, 920962738057553813],
    [8553929507472890574, 1577431469761024336, 2805631481138427591, 257813320648206855],
    [6752159427997882709, 7992539097901150338, 219823869189910825, 608306148998075114],
    [330934197940687307, 16819360955492054055, 12583989537273587375, 1874194050101957050],
    [9059637602677296544, 11753671816352877669, 14659564384408804614, 384606794123824399],
    [9871184375315452609, 16678380309829928365, 14490481210141988328, 2805345170201570759],
    [14795398744634499660, 7337663803036882283, 3252017149930406417, 57899026549284211],
    [9949326171880365246, 7654562991912623225, 1738710469613651681, 85352556260698003],
    [15937344016435590273, 15294173623265023272, 9418477521159013454, 845146236608339678],
    [9474624122173825756, 16248036947907393568, 2421475471619853505, 1721755202295560333],
    [5210688920497672711, 10004191734862456685, 11764449899593124917, 2543278179380177747],
    [8856789751287799197, 9465847437676841544, 13964485642469371227, 3297758040669518682],
    [10950551348716117576, 14954254317701026095, 8264599477715283528, 1614619039634207052],
    [14526793096436700939, 7567370668424124892, 4970896021425924275, 677301459617209370],
    [16082514034746322159, 12391493258412840888, 13406365703834941061, 1233943278671090615],
    [11857674374676558886, 3861878853202245453, 3789679107737871989, 1870467235385654953],
    [16619762468048511348, 10024377190760694552, 14074377188952137748, 1852813172889288751],
    [7230181013337521499, 13259560148353080670, 4482287181934555392, 2686134645728705009],
    [1993077840531438347, 7655615565417508932, 8912906509565547538, 58287926744042942],
    [8111113496093431193, 252598275881643551, 3684684037943957306, 3461089014234642953],
    [11801217536654349270, 18336322578262301064, 11632160195201116744, 1469287409602310635],
    [2670310227813400258, 3585138223638518658, 29935108470253639, 1634763735523408056],
    [9327523633148491129, 16138707706603722851, 13454950915978488241, 2492238951573705967],
    [11235235156277889308, 11644287703461370850, 11486857721992821676, 2031511472285224832],
    [11693898417579492550, 13093323202373917388, 14812923753363870445, 670023409995170690],
    [6743217211679469449, 4848887765811806734, 14989386348467325240, 3352995704443553830],
    [6856672410811368203, 11552844591338703751, 4454499666912557245, 2489073135105153656],
    [7315884248284864345, 5619624932463715201, 3782037607853547821, 2399927637432777104],
    [15312329385585645429, 13054201868075709911, 9745131323844887752, 287007913559995936],
    [1967588071837308177, 8670319748345158077, 14897202488163677237, 461481515311078882],
    [16137828515815863607, 16560127530035257644, 139509858522544042, 2043744391968011966],
    [9442872710244045907, 15708344040145112597, 2820532032535437294, 3403397441616476302],
    [12338185360409359410, 17746198705745706959, 13202861013944123479, 3404868561212541545],
    [1594639342482318219, 12553248722597356954, 1126455778191900522, 2549987587421458258],
    [18118360785952425885, 16136824769377637253, 1333734583778054076, 380646626893909536],
    [7624544546993557400, 17199411251012342403, 6458731299663020317, 2433600051609679438],
    [6170755763370605826, 14884395768050930708, 6347735677226594043, 1280654330041699458],
    [10878964394349317113, 12506196449328355979, 6651507829844798930, 2855445578075017289],
    [312379730387153122, 16525571913233028396, 4342981804057939468, 2053578273656267938],
    [918651104921902748, 9996897077293956179, 12944070593669075420, 1283795754112941445],
    [10516805609191236687, 7161777600906894525, 12702625666763780329, 122417228273112542],
];

/// The shipped additive-constant data of width 7.
pub closed spec fn c7_data() -> Seq<[u64; 4]> {
    C_T7@
}

/// The shipped mixing-matrix data of width 7, row-major.
pub closed spec fn m7_data() -> Seq<[u64; 4]> {
    M_T7@
}

/// The additive round constants of width 7, pinned to the shipped data.
pub fn c_t7() -> (v: Vec<[u64; 4]>)
    ensures
        v@ == c7_data(),
        v@.len() == 497,
{
    slice_to_vec(C_T7.as_slice())
}

/// The mixing matrix of width 7, pinned to the shipped data.
pub fn m_t7() -> (v: Vec<[u64; 4]>)
    ensures
        v@ == m7_data(),
        v@.len() == 49,
{
    slice_to_vec(M_T7.as_slice())
}

} // verus!
